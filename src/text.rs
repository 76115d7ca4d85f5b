use vstd::prelude::*;
use vstd::string::{StrSliceExecFns, StringExecFns, StringSliceAdditionalSpecFns};
use vstd::utf8::{decode_utf8, encode_utf8, is_char_boundary};

verus! {

/// The characters of `s`, in order.
pub fn chars_of(s: &str) -> (r: Vec<char>)
    ensures
        r@ == s@,
{
    let n = s.unicode_len();
    let mut out: Vec<char> = Vec::new();
    let mut i: usize = 0;
    while i < n
        invariant
            n == s@.len(),
            i <= n,
            out@ == s@.subrange(0, i as int),
        decreases n - i,
    {
        out.push(s.get_char(i));
        i = i + 1;
        assert(out@ =~= s@.subrange(0, i as int));
    }
    assert(out@ =~= s@);
    out
}

/// `needle` occurs in `hay` starting at position `i`.
pub open spec fn occurs_at(needle: Seq<char>, hay: Seq<char>, i: int) -> bool {
    0 <= i && i + needle.len() <= hay.len() && hay.subrange(i, i + needle.len()) == needle
}

/// `needle` occurs somewhere in `hay` (the empty sequence occurs everywhere).
pub open spec fn is_substring(needle: Seq<char>, hay: Seq<char>) -> bool {
    exists|i: int| occurs_at(needle, hay, i)
}

/// Whether `a` and `b` hold the same characters.
pub fn same_chars(a: &Vec<char>, b: &Vec<char>) -> (r: bool)
    ensures
        r == (a@ == b@),
{
    if a.len() != b.len() {
        return false;
    }
    let mut i: usize = 0;
    while i < a.len()
        invariant
            a@.len() == b@.len(),
            i <= a@.len(),
            a@.subrange(0, i as int) == b@.subrange(0, i as int),
        decreases a@.len() - i,
    {
        if a[i] != b[i] {
            assert(a@[i as int] != b@[i as int]);
            return false;
        }
        i = i + 1;
        assert(a@.subrange(0, i as int) =~= b@.subrange(0, i as int)) by {
            assert(a@.subrange(0, i as int - 1) == b@.subrange(0, i as int - 1));
            assert forall|k: int| 0 <= k < i implies a@.subrange(0, i as int)[k] == b@.subrange(0, i as int)[k] by {
                if k < i - 1 {
                    assert(a@.subrange(0, i as int - 1)[k] == b@.subrange(0, i as int - 1)[k]);
                }
            }
        }
    }
    assert(a@ =~= a@.subrange(0, i as int));
    assert(b@ =~= b@.subrange(0, i as int));
    true
}

fn occurs_at_exec(needle: &Vec<char>, hay: &Vec<char>, start: usize) -> (r: bool)
    requires
        start + needle@.len() <= hay@.len(),
    ensures
        r == occurs_at(needle@, hay@, start as int),
{
    let hay_len = hay.len();
    let mut k: usize = 0;
    while k < needle.len()
        invariant
            start + needle@.len() <= hay@.len(),
            hay_len == hay@.len(),
            k <= needle@.len(),
            forall|j: int| 0 <= j < k ==> hay@[start + j] == needle@[j],
        decreases needle@.len() - k,
    {
        if hay[start + k] != needle[k] {
            assert(hay@.subrange(start as int, start + needle@.len())[k as int] != needle@[k as int]);
            return false;
        }
        k = k + 1;
    }
    assert(hay@.subrange(start as int, start + needle@.len()) =~= needle@);
    true
}

/// Whether `needle` occurs in `hay`.
pub fn contains_chars(hay: &Vec<char>, needle: &Vec<char>) -> (r: bool)
    ensures
        r == is_substring(needle@, hay@),
{
    if needle.len() > hay.len() {
        assert forall|i: int| !occurs_at(needle@, hay@, i) by {}
        return false;
    }
    let last = hay.len() - needle.len();
    let mut i: usize = 0;
    loop
        invariant
            last == hay@.len() - needle@.len(),
            i <= last,
            forall|j: int| 0 <= j < i ==> !occurs_at(needle@, hay@, j),
        decreases last - i,
    {
        if occurs_at_exec(needle, hay, i) {
            return true;
        }
        if i == last {
            assert forall|j: int| !occurs_at(needle@, hay@, j) by {}
            return false;
        }
        i = i + 1;
    }
}

/// `s` cut to at most `max_len` characters, the last one an ellipsis when
/// anything was cut.
pub open spec fn truncated_chars(s: Seq<char>, max_len: int) -> Seq<char> {
    if s.len() <= max_len {
        s
    } else if max_len > 1 {
        s.take(max_len - 1).push('\u{2026}')
    } else {
        seq!['\u{2026}']
    }
}

/// `s` with at most `max_len` characters, ending in an ellipsis when cut.
pub fn truncate(s: &str, max_len: usize) -> (r: String)
    ensures
        r@ == truncated_chars(s@, max_len as int),
{
    proof { reveal_strlit("\u{2026}"); }
    if s.unicode_len() <= max_len {
        s.to_owned()
    } else if max_len > 1 {
        let mut out = s.substring_char(0, max_len - 1).to_owned();
        out.append("\u{2026}");
        assert(out@ =~= s@.take(max_len - 1).push('\u{2026}'));
        out
    } else {
        "\u{2026}".to_owned()
    }
}

fn cut_bytes(s: &str, keep: usize) -> (r: String)
    requires
        keep <= s.spec_bytes().len(),
        is_char_boundary(s.spec_bytes(), keep as int),
    ensures
        r@ == decode_utf8(s.spec_bytes().take(keep as int)).push('\u{2026}'),
{
    proof {
        reveal_strlit("\u{2026}");
    }
    let (head, _) = s.split_at(keep);
    proof {
        broadcast use vstd::utf8::encode_utf8_decode_utf8;
        assert(head.spec_bytes() =~= s.spec_bytes().take(keep as int));
        assert(decode_utf8(encode_utf8(head@)) == head@);
    }
    let mut out = head.to_owned();
    out.append("\u{2026}");
    assert(out@ =~= head@.push('\u{2026}'));
    out
}

/// `s` if its UTF-8 form fits in `max_len` bytes; else its first
/// `max_len - 1` bytes (at least none) followed by an ellipsis.
pub fn truncate_str(s: &str, max_len: usize) -> (r: String)
    requires
        s.spec_bytes().len() <= max_len || is_char_boundary(
            s.spec_bytes(),
            if max_len > 0 { max_len - 1 } else { 0 },
        ),
    ensures
        s.spec_bytes().len() <= max_len ==> r@ == s@,
        s.spec_bytes().len() > max_len ==> r@ == decode_utf8(
            s.spec_bytes().take(if max_len > 0 { max_len - 1 } else { 0 }),
        ).push('\u{2026}'),
{
    if s.as_bytes().len() <= max_len {
        s.to_owned()
    } else {
        cut_bytes(s, if max_len > 0 { max_len - 1 } else { 0 })
    }
}

/// `s` if its UTF-8 form fits in `max_len` bytes; else its first
/// `max_len - 1` bytes followed by an ellipsis.
pub fn truncate_label(s: &str, max_len: usize) -> (r: String)
    requires
        s.spec_bytes().len() <= max_len || (max_len > 0 && is_char_boundary(s.spec_bytes(), max_len - 1)),
    ensures
        s.spec_bytes().len() <= max_len ==> r@ == s@,
        s.spec_bytes().len() > max_len ==> r@ == decode_utf8(s.spec_bytes().take(max_len - 1)).push(
            '\u{2026}',
        ),
{
    if s.as_bytes().len() <= max_len {
        s.to_owned()
    } else {
        cut_bytes(s, max_len - 1)
    }
}

/// The glyphs that connection lines are drawn with.
pub open spec fn line_glyph(c: char) -> bool {
    c == '\u{2500}' || c == '\u{2502}' || c == '\u{2571}' || c == '\u{2572}' || c == '\u{00B7}'
        || c == '\u{2022}' || c == '\u{2219}'
}

/// Whether `s` is a single line glyph.
pub fn is_line_char(s: &str) -> (r: bool)
    ensures
        r == (s@.len() == 1 && line_glyph(s@[0])),
{
    if s.unicode_len() != 1 {
        return false;
    }
    let c = s.get_char(0);
    c == '\u{2500}' || c == '\u{2502}' || c == '\u{2571}' || c == '\u{2572}' || c == '\u{00B7}'
        || c == '\u{2022}' || c == '\u{2219}'
}

} // verus!
