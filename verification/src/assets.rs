//! The files bundled into the application (icons and images), found by path.

use vstd::prelude::*;

verus! {

/// The paths of the bundled files, in bundle order.
pub const BUNDLED: [&'static str; 10] = [
    "icons/close_small.svg",
    "icons/eye.svg",
    "icons/eye_off.svg",
    "icons/lock.svg",
    "icons/more_horiz.svg",
    "icons/play_arrow.svg",
    "icons/plus.svg",
    "icons/unlock.svg",
    "images/hue_ring.png",
    "images/sprite.png",
];

/// Whether `a` and `b` are the same text.
pub fn str_eq(a: &str, b: &str) -> (r: bool)
    ensures
        r == (a@ == b@),
{
    let n = a.unicode_len();
    if n != b.unicode_len() {
        return false;
    }
    let mut i: usize = 0;
    while i < n
        invariant
            0 <= i <= n,
            n == a@.len(),
            n == b@.len(),
            forall|j: int| 0 <= j < i ==> a@[j] == b@[j],
        decreases n - i,
    {
        if a.get_char(i) != b.get_char(i) {
            return false;
        }
        i = i + 1;
    }
    assert(a@ =~= b@);
    true
}

/// Whether `s` begins with `prefix`.
pub fn starts_with(s: &str, prefix: &str) -> (r: bool)
    ensures
        r == (prefix@.len() <= s@.len() && s@.take(prefix@.len() as int) == prefix@),
{
    let n = prefix.unicode_len();
    if n > s.unicode_len() {
        return false;
    }
    let mut i: usize = 0;
    while i < n
        invariant
            0 <= i <= n,
            n == prefix@.len(),
            n <= s@.len(),
            forall|j: int| 0 <= j < i ==> s@[j] == prefix@[j],
        decreases n - i,
    {
        if s.get_char(i) != prefix.get_char(i) {
            assert(s@.take(n as int)[i as int] != prefix@[i as int]);
            return false;
        }
        i = i + 1;
    }
    assert(s@.take(n as int) =~= prefix@);
    true
}

/// The application's bundled files.
pub struct Assets;

impl Assets {
    /// The position in [`BUNDLED`] of the file at `path`, if it is bundled.
    pub fn load(&self, path: &str) -> (r: Option<usize>)
        ensures
            match r {
                Some(i) => i < 10 && BUNDLED@[i as int]@ == path@
                    && forall|j: int| 0 <= j < i ==> BUNDLED@[j]@ != path@,
                None => forall|j: int| 0 <= j < 10 ==> BUNDLED@[j]@ != path@,
            },
    {
        let files = BUNDLED;
        let mut i: usize = 0;
        while i < 10
            invariant
                0 <= i <= 10,
                files@ == BUNDLED@,
                forall|j: int| 0 <= j < i ==> BUNDLED@[j]@ != path@,
            decreases 10 - i,
        {
            if str_eq(files[i], path) {
                return Some(i);
            }
            i = i + 1;
        }
        None
    }

    /// The bundled paths that begin with `path`, in bundle order.
    pub fn list(&self, path: &str) -> (r: Vec<&'static str>)
        ensures
            r@ == BUNDLED@.filter(|name: &'static str| path@.len() <= name@.len() && name@.take(path@.len() as int) == path@),
    {
        let ghost keep = |name: &'static str| path@.len() <= name@.len() && name@.take(path@.len() as int) == path@;
        let files = BUNDLED;
        let mut out: Vec<&'static str> = Vec::new();
        let mut i: usize = 0;
        assert(BUNDLED@.take(0) =~= Seq::<&'static str>::empty());
        while i < 10
            invariant
                0 <= i <= 10,
                files@ == BUNDLED@,
                keep == (|name: &'static str| path@.len() <= name@.len() && name@.take(path@.len() as int) == path@),
                out@ == BUNDLED@.take(i as int).filter(keep),
            decreases 10 - i,
        {
            reveal(Seq::filter);
            let ghost t = BUNDLED@.take(i + 1);
            assert(t.drop_last() =~= BUNDLED@.take(i as int));
            assert(t.last() == files@[i as int]);
            assert(t.filter(keep) == if keep(t.last()) { t.drop_last().filter(keep).push(t.last()) } else { t.drop_last().filter(keep) });
            if starts_with(files[i], path) {
                out.push(files[i]);
            }
            i = i + 1;
        }
        assert(BUNDLED@.take(10) =~= BUNDLED@);
        out
    }
}

} // verus!
