//! Character-level helpers: identifiers in PascalCase and reference paths.
use vstd::prelude::*;

verus! {

/// A character that separates words in a name: an ASCII character that is neither
/// a letter nor a digit.
pub open spec fn is_separator(c: char) -> bool {
    (c as u32) < 128 && !(('a' <= c && c <= 'z') || ('A' <= c && c <= 'Z') || ('0' <= c
        && c <= '9'))
}

/// The ASCII upper-case form of `c`; other characters are left alone.
pub open spec fn upper(c: char) -> char {
    if 'a' <= c && c <= 'z' {
        ((c as u32) - 32) as char
    } else {
        c
    }
}

/// Whether position `i` of `s` starts a word.
pub open spec fn starts_word(s: Seq<char>, i: int) -> bool {
    i == 0 || is_separator(s[i - 1])
}

/// A name in PascalCase: separators are dropped and the first character of each
/// word is upper-cased.
pub open spec fn pascal_word(s: Seq<char>) -> Seq<char>
    decreases s.len(),
{
    if s.len() == 0 {
        Seq::empty()
    } else {
        let i = s.len() - 1;
        pascal_word(s.drop_last()) + if is_separator(s[i]) {
            Seq::<char>::empty()
        } else if starts_word(s, i) {
            seq![upper(s[i])]
        } else {
            seq![s[i]]
        }
    }
}

/// The PascalCase identifier of a path: its segments, each in PascalCase, joined.
pub open spec fn pascal_path(path: Seq<Seq<char>>) -> Seq<char>
    decreases path.len(),
{
    if path.len() == 0 {
        Seq::empty()
    } else {
        pascal_path(path.drop_last()) + pascal_word(path.last())
    }
}

/// Relies on `String::push`: appends one character.
#[verifier::external_body]
pub(crate) fn push_char(s: &mut String, c: char)
    ensures
        final(s)@ == old(s)@.push(c),
{
    s.push(c)
}

/// The ASCII upper-case form of `c`.
fn ascii_upper(c: char) -> (r: char)
    ensures
        r == upper(c),
{
    if 'a' <= c && c <= 'z' {
        (((c as u32) - 32) as u8) as char
    } else {
        c
    }
}

/// Appends the PascalCase form of `word` to `out`.
pub fn push_pascal_word(out: &mut String, word: &str)
    ensures
        final(out)@ == old(out)@ + pascal_word(word@),
{
    let n = word.unicode_len();
    let mut i: usize = 0;
    while i < n
        invariant
            n == word@.len(),
            i <= n,
            out@ == old(out)@ + pascal_word(word@.take(i as int)),
        decreases n - i,
    {
        let c = word.get_char(i);
        let sep = (c as u32) < 128 && !(('a' <= c && c <= 'z') || ('A' <= c && c <= 'Z') || (
        '0' <= c && c <= '9'));
        let start = i == 0 || {
            let p = word.get_char(i - 1);
            (p as u32) < 128 && !(('a' <= p && p <= 'z') || ('A' <= p && p <= 'Z') || ('0' <= p
                && p <= '9'))
        };
        proof {
            let t = word@.take(i as int + 1);
            assert(t.drop_last() =~= word@.take(i as int));
            assert(t[i as int] == c);
            assert(i > 0 ==> t[i - 1] == word@[i - 1]);
        }
        if !sep {
            if start {
                push_char(out, ascii_upper(c));
            } else {
                push_char(out, c);
            }
        }
        proof {
            let t = word@.take(i as int + 1);
            assert(out@ =~= old(out)@ + pascal_word(t));
        }
        i = i + 1;
    }
    assert(word@.take(n as int) =~= word@);
}

/// The PascalCase identifier of `path`.
pub fn pascal_case(path: &Vec<String>) -> (r: String)
    ensures
        r@ == pascal_path(path@.map_values(|s: String| s@)),
{
    let mut out = String::new();
    let mut i: usize = 0;
    while i < path.len()
        invariant
            i <= path@.len(),
            out@ == pascal_path(path@.take(i as int).map_values(|s: String| s@)),
        decreases path@.len() - i,
    {
        push_pascal_word(&mut out, path[i].as_str());
        proof {
            let segs = path@.take(i as int + 1).map_values(|s: String| s@);
            assert(segs.drop_last() =~= path@.take(i as int).map_values(|s: String| s@));
        }
        i = i + 1;
    }
    assert(path@.take(path@.len() as int) =~= path@);
    out
}

/// Whether `s` begins with `prefix`.
pub fn starts_with(s: &str, prefix: &str) -> (r: bool)
    ensures
        r == (prefix@.len() <= s@.len() && s@.take(prefix@.len() as int) == prefix@),
{
    let n = prefix.unicode_len();
    if n > s.unicode_len() {
        return false;
    }
    let mut i: usize = 0;
    while i < n
        invariant
            n == prefix@.len() <= s@.len(),
            i <= n,
            forall|j: int| 0 <= j < i ==> s@[j] == prefix@[j],
        decreases n - i,
    {
        if s.get_char(i) != prefix.get_char(i) {
            assert(s@.take(n as int)[i as int] != prefix@[i as int]);
            return false;
        }
        i = i + 1;
    }
    assert(s@.take(n as int) =~= prefix@);
    true
}

} // verus!
