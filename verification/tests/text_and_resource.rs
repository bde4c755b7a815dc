use ciart_studio::resource::{company_name, file_description, resource_script, PackageInfo, APP_NAME};
use ciart_studio::text::{decimal, escape};

#[test]
fn decimals() {
    assert_eq!(decimal(0), "0");
    assert_eq!(decimal(7), "7");
    assert_eq!(decimal(10), "10");
    assert_eq!(decimal(1200), "1200");
    assert_eq!(decimal(u64::MAX), u64::MAX.to_string());
}

#[test]
fn escaping() {
    assert_eq!(escape(r#"C:\Icons\"App".ico"#), r#"C:\\Icons\\\"App\".ico"#);
    assert_eq!(escape(""), "");
    assert_eq!(escape("plain é"), "plain é");
    let s = r#"a\"b\\c""#;
    assert_eq!(escape(s), s.replace('\\', r"\\").replace('"', r#"\""#));
}

#[test]
fn company_and_description() {
    assert_eq!(company_name(&Some("Jane Doe <jane@x>:Bob".to_string())), "Jane Doe <jane@x>");
    assert_eq!(company_name(&Some(":Bob".to_string())), APP_NAME);
    assert_eq!(company_name(&Some(String::new())), APP_NAME);
    assert_eq!(company_name(&Some("Solo".to_string())), "Solo");
    assert_eq!(company_name(&None), APP_NAME);
    assert_eq!(file_description(&Some("A studio".to_string())), "A studio");
    assert_eq!(file_description(&Some(String::new())), APP_NAME);
    assert_eq!(file_description(&None), APP_NAME);
}

fn expected(icon: &str, pkg: &PackageInfo, company: &str, description: &str) -> String {
    let esc = |v: &str| v.replace('\\', r"\\").replace('"', r#"\""#);
    format!(
        r#"1 ICON "{icon}"

1 VERSIONINFO
FILEVERSION {major},{minor},{patch},0
PRODUCTVERSION {major},{minor},{patch},0
FILEOS 0x40004L
FILETYPE 0x1L
BEGIN
  BLOCK "StringFileInfo"
  BEGIN
    BLOCK "040904b0"
    BEGIN
      VALUE "CompanyName", "{company}"
      VALUE "FileDescription", "{description}"
      VALUE "FileVersion", "{version}"
      VALUE "InternalName", "{bin}"
      VALUE "OriginalFilename", "{bin}.exe"
      VALUE "ProductName", "{app}"
      VALUE "ProductVersion", "{version}"
    END
  END
  BLOCK "VarFileInfo"
  BEGIN
    VALUE "Translation", 0x409, 1200
  END
END
"#,
        icon = esc(icon),
        major = pkg.major,
        minor = pkg.minor,
        patch = pkg.patch,
        version = pkg.version,
        bin = pkg.name,
        app = esc("Ciart Studio"),
        company = esc(company),
        description = esc(description),
    )
}

#[test]
fn resource_script_text() {
    let pkg = PackageInfo {
        version: "0.1.0".to_string(),
        name: "ciart-studio".to_string(),
        major: "0".to_string(),
        minor: "1".to_string(),
        patch: "0".to_string(),
        description: Some("Pixel \"art\" studio".to_string()),
        authors: Some("Ciart Team:Other".to_string()),
    };
    let icon = r"C:\build\assets\AppIcon.ico";
    assert_eq!(resource_script(icon, &pkg), expected(icon, &pkg, "Ciart Team", "Pixel \"art\" studio"));
    let bare = PackageInfo { description: None, authors: None, ..pkg };
    assert_eq!(resource_script("icon.ico", &bare), expected("icon.ico", &bare, "Ciart Studio", "Ciart Studio"));
}
