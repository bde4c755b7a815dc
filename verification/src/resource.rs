//! The Windows resource script that embeds the application icon and version
//! information into the executable. The build step reads the package
//! metadata; the text is composed here.

use vstd::prelude::*;
use crate::text::{escape, spec_escape};

verus! {

/// The application's display name.
pub const APP_NAME: &'static str = "Ciart Studio";
/// The base name of the icon file.
pub const ICON_NAME: &'static str = "AppIcon";

/// What the resource script is made from: the package's version (whole and in
/// parts), its binary name, and its description and authors where given.
pub struct PackageInfo {
    pub version: String,
    pub name: String,
    pub major: String,
    pub minor: String,
    pub patch: String,
    pub description: Option<String>,
    pub authors: Option<String>,
}

/// The text before the first `:` (all of it where there is none).
pub open spec fn first_field(s: Seq<char>) -> Seq<char>
    decreases s.len(),
{
    if s.len() == 0 {
        Seq::empty()
    } else if s[0] == ':' {
        Seq::empty()
    } else {
        seq![s[0]] + first_field(s.drop_first())
    }
}

/// `value` where it is given and not empty, the application's name otherwise.
pub open spec fn or_app_name(value: Option<Seq<char>>) -> Seq<char> {
    match value {
        Some(v) => if v.len() > 0 { v } else { APP_NAME@ },
        None => APP_NAME@,
    }
}

/// The company: the first of the `:`-separated authors.
pub open spec fn spec_company(authors: Option<Seq<char>>) -> Seq<char> {
    match authors {
        Some(a) => or_app_name(Some(first_field(a))),
        None => APP_NAME@,
    }
}

pub open spec fn view_opt(s: Option<String>) -> Option<Seq<char>> {
    match s {
        Some(v) => Some(v@),
        None => None,
    }
}

proof fn lemma_first_field_take(s: Seq<char>, k: int)
    requires
        0 <= k <= s.len(),
        forall|j: int| 0 <= j < k ==> s[j] != ':',
        k == s.len() || s[k] == ':',
    ensures
        first_field(s) == s.take(k),
    decreases s.len(),
{
    if s.len() > 0 && k > 0 {
        lemma_first_field_take(s.drop_first(), k - 1);
        assert(s.take(k) =~= seq![s[0]] + s.drop_first().take(k - 1));
    } else if s.len() > 0 {
        assert(s.take(k) =~= Seq::<char>::empty());
    } else {
        assert(s.take(k) =~= Seq::<char>::empty());
    }
}

/// The first of the `:`-separated authors, or the application's name where
/// that is empty or no authors are given.
pub fn company_name(authors: &Option<String>) -> (r: String)
    ensures
        r@ == spec_company(view_opt(*authors)),
{
    let a = match authors {
        Some(a) => a.as_str(),
        None => return String::from_str(APP_NAME),
    };
    let n = a.unicode_len();
    let mut k: usize = 0;
    while k < n && a.get_char(k) != ':'
        invariant
            0 <= k <= n,
            n == a@.len(),
            forall|j: int| 0 <= j < k ==> a@[j] != ':',
        decreases n - k,
    {
        k = k + 1;
    }
    proof { lemma_first_field_take(a@, k as int); }
    if k == 0 {
        return String::from_str(APP_NAME);
    }
    String::from_str(a.substring_char(0, k))
}

/// The description where given and not empty, the application's name otherwise.
pub fn file_description(description: &Option<String>) -> (r: String)
    ensures
        r@ == or_app_name(view_opt(*description)),
{
    match description {
        Some(d) => if d.as_str().unicode_len() > 0 { d.clone() } else { String::from_str(APP_NAME) },
        None => String::from_str(APP_NAME),
    }
}

pub const ICON_OPEN: &'static str = "1 ICON \"";
pub const VERSION_BLOCK: &'static str = "\"\n\n1 VERSIONINFO\nFILEVERSION ";
pub const COMMA: &'static str = ",";
pub const PRODUCT_VERSION: &'static str = ",0\nPRODUCTVERSION ";
pub const COMPANY_NAME: &'static str = ",0\nFILEOS 0x40004L\nFILETYPE 0x1L\nBEGIN\n  BLOCK \"StringFileInfo\"\n  BEGIN\n    BLOCK \"040904b0\"\n    BEGIN\n      VALUE \"CompanyName\", \"";
pub const FILE_DESCRIPTION: &'static str = "\"\n      VALUE \"FileDescription\", \"";
pub const FILE_VERSION: &'static str = "\"\n      VALUE \"FileVersion\", \"";
pub const INTERNAL_NAME: &'static str = "\"\n      VALUE \"InternalName\", \"";
pub const ORIGINAL_FILENAME: &'static str = "\"\n      VALUE \"OriginalFilename\", \"";
pub const PRODUCT_NAME: &'static str = ".exe\"\n      VALUE \"ProductName\", \"";
pub const PRODUCT_VERSION_VALUE: &'static str = "\"\n      VALUE \"ProductVersion\", \"";
pub const SCRIPT_END: &'static str = "\"\n    END\n  END\n  BLOCK \"VarFileInfo\"\n  BEGIN\n    VALUE \"Translation\", 0x409, 1200\n  END\nEND\n";

/// The resource script for the icon at path `icon` and the package `pkg`: the
/// icon, the numeric file and product versions, and the string table
/// (company, description, version, internal and original file name, product
/// name). The icon path, company, description and product name are escaped.
pub open spec fn spec_resource_script(icon: Seq<char>, pkg: PackageInfo) -> Seq<char> {
    let numbers = pkg.major@ + COMMA@ + pkg.minor@ + COMMA@ + pkg.patch@;
    ICON_OPEN@ + spec_escape(icon)
    + VERSION_BLOCK@ + numbers
    + PRODUCT_VERSION@ + numbers
    + COMPANY_NAME@ + spec_escape(spec_company(view_opt(pkg.authors)))
    + FILE_DESCRIPTION@ + spec_escape(or_app_name(view_opt(pkg.description)))
    + FILE_VERSION@ + pkg.version@
    + INTERNAL_NAME@ + pkg.name@
    + ORIGINAL_FILENAME@ + pkg.name@
    + PRODUCT_NAME@ + spec_escape(APP_NAME@)
    + PRODUCT_VERSION_VALUE@ + pkg.version@
    + SCRIPT_END@
}

/// Writes the resource script for the icon at `icon` and the package `pkg`.
pub fn resource_script(icon: &str, pkg: &PackageInfo) -> (r: String)
    ensures
        r@ == spec_resource_script(icon@, *pkg),
{
    let company = company_name(&pkg.authors);
    let description = file_description(&pkg.description);
    let mut s = String::from_str(ICON_OPEN);
    s.append(escape(icon).as_str());
    s.append(VERSION_BLOCK);
    s.append(pkg.major.as_str());
    s.append(COMMA);
    s.append(pkg.minor.as_str());
    s.append(COMMA);
    s.append(pkg.patch.as_str());
    s.append(PRODUCT_VERSION);
    s.append(pkg.major.as_str());
    s.append(COMMA);
    s.append(pkg.minor.as_str());
    s.append(COMMA);
    s.append(pkg.patch.as_str());
    s.append(COMPANY_NAME);
    s.append(escape(company.as_str()).as_str());
    s.append(FILE_DESCRIPTION);
    s.append(escape(description.as_str()).as_str());
    s.append(FILE_VERSION);
    s.append(pkg.version.as_str());
    s.append(INTERNAL_NAME);
    s.append(pkg.name.as_str());
    s.append(ORIGINAL_FILENAME);
    s.append(pkg.name.as_str());
    s.append(PRODUCT_NAME);
    s.append(escape(APP_NAME).as_str());
    s.append(PRODUCT_VERSION_VALUE);
    s.append(pkg.version.as_str());
    s.append(SCRIPT_END);
    assert(s@ =~= spec_resource_script(icon@, *pkg));
    s
}

} // verus!
