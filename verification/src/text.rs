//! Text helpers: decimal numbers and the escaping of resource-script strings.

use vstd::prelude::*;

verus! {

pub open spec fn digit_char(d: nat) -> char {
    if d == 0 { '0' } else if d == 1 { '1' } else if d == 2 { '2' } else if d == 3 { '3' }
    else if d == 4 { '4' } else if d == 5 { '5' } else if d == 6 { '6' } else if d == 7 { '7' }
    else if d == 8 { '8' } else { '9' }
}

/// The decimal digits of `n`, most significant first, without leading zeros.
pub open spec fn spec_decimal(n: nat) -> Seq<char>
    decreases n,
{
    if n < 10 {
        seq![digit_char(n)]
    } else {
        spec_decimal(n / 10).push(digit_char(n % 10))
    }
}

fn digit_str(d: u64) -> (r: &'static str)
    requires
        d < 10,
    ensures
        r@ == seq![digit_char(d as nat)],
{
    proof {
        reveal_strlit("0");
        reveal_strlit("1");
        reveal_strlit("2");
        reveal_strlit("3");
        reveal_strlit("4");
        reveal_strlit("5");
        reveal_strlit("6");
        reveal_strlit("7");
        reveal_strlit("8");
        reveal_strlit("9");
    }
    match d {
        0 => "0",
        1 => "1",
        2 => "2",
        3 => "3",
        4 => "4",
        5 => "5",
        6 => "6",
        7 => "7",
        8 => "8",
        _ => "9",
    }
}

/// Appends the decimal digits of `n` to `s`.
pub fn push_decimal(s: &mut String, n: u64)
    ensures
        final(s)@ == old(s)@ + spec_decimal(n as nat),
    decreases n,
{
    if n >= 10 {
        push_decimal(s, n / 10);
    }
    s.append(digit_str(n % 10));
    assert(old(s)@ + spec_decimal(n as nat) =~= if n >= 10 {
        (old(s)@ + spec_decimal((n / 10) as nat)).push(digit_char((n % 10) as nat))
    } else {
        old(s)@ + seq![digit_char(n as nat)]
    });
}

/// The decimal form of `n`.
pub fn decimal(n: u64) -> (r: String)
    ensures
        r@ == spec_decimal(n as nat),
{
    let mut s = String::new();
    push_decimal(&mut s, n);
    assert(s@ =~= spec_decimal(n as nat));
    s
}

/// How one character is written inside a quoted resource-script string: a
/// backslash and a double quote get a backslash in front.
pub open spec fn escape_char(c: char) -> Seq<char> {
    if c == '\\' {
        seq!['\\', '\\']
    } else if c == '"' {
        seq!['\\', '"']
    } else {
        seq![c]
    }
}

/// `s` with every backslash doubled and every double quote preceded by a
/// backslash.
pub open spec fn spec_escape(s: Seq<char>) -> Seq<char>
    decreases s.len(),
{
    if s.len() == 0 {
        Seq::empty()
    } else {
        spec_escape(s.drop_last()) + escape_char(s.last())
    }
}

/// Escapes `value` for a double-quoted string of a resource script.
pub fn escape(value: &str) -> (r: String)
    ensures
        r@ == spec_escape(value@),
{
    let n = value.unicode_len();
    let mut out = String::new();
    let mut i: usize = 0;
    assert(value@.take(0) =~= Seq::<char>::empty());
    while i < n
        invariant
            0 <= i <= n,
            n == value@.len(),
            out@ == spec_escape(value@.take(i as int)),
        decreases n - i,
    {
        proof {
            reveal_strlit("\\\\");
            reveal_strlit("\\\"");
        }
        let c = value.get_char(i);
        let ghost before = out@;
        if c == '\\' {
            out.append("\\\\");
        } else if c == '"' {
            out.append("\\\"");
        } else {
            let one = value.substring_char(i, i + 1);
            assert(one@ =~= seq![c]);
            out.append(one);
        }
        assert(value@.take(i + 1).drop_last() =~= value@.take(i as int));
        assert(value@.take(i + 1).last() == c);
        assert(out@ =~= before + escape_char(c));
        i = i + 1;
    }
    assert(value@.take(n as int) =~= value@);
    out
}

/// The same escaping, read front to back.
pub proof fn lemma_escape_cons(s: Seq<char>)
    requires
        s.len() > 0,
    ensures
        spec_escape(s) == escape_char(s[0]) + spec_escape(s.drop_first()),
    decreases s.len(),
{
    if s.len() == 1 {
        assert(spec_escape(s.drop_last()) =~= Seq::<char>::empty());
        assert(spec_escape(s.drop_first()) =~= Seq::<char>::empty());
        assert(spec_escape(s) =~= escape_char(s[0]) + spec_escape(s.drop_first()));
    } else {
        lemma_escape_cons(s.drop_last());
        assert(s.drop_last().drop_first() =~= s.drop_first().drop_last());
        assert(s.drop_first().last() == s.last());
        assert(s.drop_last()[0] == s[0]);
        assert(spec_escape(s) =~= escape_char(s[0]) + spec_escape(s.drop_first()));
    }
}

/// Reading an escaped string back: a backslash stands for the character
/// after it.
pub open spec fn spec_unescape(s: Seq<char>) -> Seq<char>
    decreases s.len(),
{
    if s.len() == 0 {
        Seq::empty()
    } else if s[0] == '\\' && s.len() >= 2 {
        seq![s[1]] + spec_unescape(s.skip(2))
    } else {
        seq![s[0]] + spec_unescape(s.skip(1))
    }
}

/// Escaping loses nothing: reading the escaped text back gives the original.
pub proof fn lemma_unescape_escape(s: Seq<char>)
    ensures
        spec_unescape(spec_escape(s)) == s,
    decreases s.len(),
{
    if s.len() == 0 {
        assert(spec_escape(s) =~= Seq::<char>::empty());
    } else {
        lemma_escape_cons(s);
        lemma_unescape_escape(s.drop_first());
        let e = spec_escape(s);
        let tail = spec_escape(s.drop_first());
        let head = escape_char(s[0]);
        if s[0] == '\\' || s[0] == '"' {
            assert(e.skip(2) =~= tail);
            assert(e[0] == '\\');
            assert(e[1] == s[0]);
        } else {
            assert(e.skip(1) =~= tail);
            assert(e[0] == s[0]);
        }
        assert(spec_unescape(e) =~= s);
    }
}

/// Different texts never escape to the same text.
pub proof fn lemma_escape_injective(a: Seq<char>, b: Seq<char>)
    requires
        spec_escape(a) == spec_escape(b),
    ensures
        a == b,
{
    lemma_unescape_escape(a);
    lemma_unescape_escape(b);
}

} // verus!
