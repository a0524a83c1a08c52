//! Text indexing: the characters of a string, spans counted in UTF-16 code
//! units, and substring search.
//!
//! The chat platform counts the offset and length of an entity in UTF-16 code
//! units. A character outside the basic multilingual plane takes two units, so
//! neither a byte index nor a character index finds the right span.

use vstd::prelude::*;

verus! {

/// Number of UTF-16 code units that encode `c`.
pub open spec fn unit_len(c: char) -> nat {
    if (c as u32) < 0x10000 {
        1
    } else {
        2
    }
}

/// The UTF-16 code units that encode `c`: the scalar value itself inside the
/// basic multilingual plane, a high and a low surrogate above it.
pub open spec fn units_of_char(c: char) -> Seq<u16> {
    let v = c as u32 as int;
    if v < 0x10000 {
        seq![v as u16]
    } else {
        seq![(0xD800 + (v - 0x10000) / 0x400) as u16, (0xDC00 + (v - 0x10000) % 0x400) as u16]
    }
}

/// The UTF-16 encoding of `s`.
pub open spec fn utf16_units(s: Seq<char>) -> Seq<u16>
    decreases s.len(),
{
    if s.len() == 0 {
        Seq::empty()
    } else {
        utf16_units(s.drop_last()) + units_of_char(s.last())
    }
}

/// Length of `s` in UTF-16 code units.
pub open spec fn utf16_len(s: Seq<char>) -> nat
    decreases s.len(),
{
    if s.len() == 0 {
        0
    } else {
        utf16_len(s.drop_last()) + unit_len(s.last())
    }
}

/// The first `i` characters of `s` take exactly `units` code units.
pub open spec fn at_unit(s: Seq<char>, i: int, units: nat) -> bool {
    0 <= i <= s.len() && utf16_len(s.take(i)) == units
}

/// The character index that lies `units` code units into `s`. `None` where
/// `units` points behind the end of `s` or between the two halves of a
/// surrogate pair.
pub open spec fn index_at_unit(s: Seq<char>, units: nat) -> Option<int> {
    if exists|i: int| at_unit(s, i, units) {
        Some(choose|i: int| at_unit(s, i, units))
    } else {
        None
    }
}

/// The part of `s` that occupies the code units `[offset, offset + length)`.
/// `None` where either end of the span is no character boundary of `s`.
pub open spec fn utf16_slice(s: Seq<char>, offset: nat, length: nat) -> Option<Seq<char>> {
    match (index_at_unit(s, offset), index_at_unit(s, offset + length)) {
        (Some(i), Some(j)) => Some(s.subrange(i, j)),
        _ => None,
    }
}

/// `n` stands in `h` at character index `i`.
pub open spec fn occurs_at(h: Seq<char>, n: Seq<char>, i: int) -> bool {
    0 <= i && i + n.len() <= h.len() && h.subrange(i, i + n.len()) == n
}

/// `n` stands somewhere in `h`.
pub open spec fn contains_text(h: Seq<char>, n: Seq<char>) -> bool {
    exists|i: int| occurs_at(h, n, i)
}

/// One more character adds its own code units to the length of a prefix.
pub proof fn lemma_prefix_step(s: Seq<char>, i: int)
    requires
        0 <= i < s.len(),
    ensures
        utf16_len(s.take(i + 1)) == utf16_len(s.take(i)) + unit_len(s[i]),
        utf16_units(s.take(i + 1)) == utf16_units(s.take(i)) + units_of_char(s[i]),
{
    assert(s.take(i + 1).drop_last() == s.take(i));
    assert(s.take(i + 1).last() == s[i]);
}

/// Every character takes at least one code unit, so a longer prefix is
/// strictly longer in code units.
pub proof fn lemma_prefix_grows(s: Seq<char>, i: int, j: int)
    requires
        0 <= i <= j <= s.len(),
    ensures
        utf16_len(s.take(i)) + (j - i) <= utf16_len(s.take(j)),
    decreases j - i,
{
    if i < j {
        lemma_prefix_grows(s, i, j - 1);
        lemma_prefix_step(s, j - 1);
    }
}

/// A count of code units names at most one character index.
pub proof fn lemma_boundary_unique(s: Seq<char>, i: int, j: int, units: nat)
    requires
        at_unit(s, i, units),
        at_unit(s, j, units),
    ensures
        i == j,
{
    if i < j {
        lemma_prefix_grows(s, i, j);
    } else if j < i {
        lemma_prefix_grows(s, j, i);
    }
}

/// The encoding has as many code units as `utf16_len` counts.
pub proof fn lemma_units_len(s: Seq<char>)
    ensures
        utf16_units(s).len() == utf16_len(s),
    decreases s.len(),
{
    if s.len() > 0 {
        lemma_units_len(s.drop_last());
    }
}

/// The encoding of a concatenation is the concatenation of the encodings.
pub proof fn lemma_units_concat(a: Seq<char>, b: Seq<char>)
    ensures
        utf16_units(a + b) == utf16_units(a) + utf16_units(b),
    decreases b.len(),
{
    if b.len() == 0 {
        assert(a + b == a);
        assert(utf16_units(a) + utf16_units(b) == utf16_units(a));
    } else {
        lemma_units_concat(a, b.drop_last());
        assert((a + b).drop_last() == a + b.drop_last());
        assert((a + b).last() == b.last());
        assert(utf16_units(a + b) == utf16_units(a) + utf16_units(b.drop_last()) + units_of_char(
            b.last(),
        ));
        assert(utf16_units(a) + utf16_units(b.drop_last()) + units_of_char(b.last())
            == utf16_units(a) + (utf16_units(b.drop_last()) + units_of_char(b.last())));
    }
}

/// A span that can be cut holds exactly the code units
/// `[offset, offset + length)` of the text's UTF-16 encoding.
pub proof fn lemma_slice_is_code_unit_range(text: Seq<char>, offset: nat, length: nat)
    requires
        utf16_slice(text, offset, length) is Some,
    ensures
        offset + length <= utf16_units(text).len(),
        utf16_units(utf16_slice(text, offset, length)->0) == utf16_units(text).subrange(
            offset as int,
            offset as int + length,
        ),
{
    let i = index_at_unit(text, offset)->0;
    let j = index_at_unit(text, offset + length)->0;
    assert(at_unit(text, i, offset));
    assert(at_unit(text, j, offset + length));
    if j < i {
        lemma_prefix_grows(text, j, i);
    }
    let head = text.take(i);
    let part = text.subrange(i, j);
    let tail = text.skip(j);
    assert(text.take(j) == head + part);
    assert(text == text.take(j) + tail);
    lemma_units_concat(head, part);
    lemma_units_concat(text.take(j), tail);
    lemma_units_len(head);
    lemma_units_len(text.take(j));
    assert(utf16_units(text).subrange(offset as int, offset as int + length) =~= utf16_units(part));
}

/// Cutting finds a part again from the code-unit lengths of what stands
/// before it and of the part itself.
pub proof fn lemma_slice_finds_part(head: Seq<char>, part: Seq<char>, tail: Seq<char>)
    ensures
        utf16_slice(head + part + tail, utf16_len(head), utf16_len(part)) == Some(part),
{
    let text = head + part + tail;
    let i = head.len() as int;
    let j = i + part.len();
    assert(text.take(i) == head);
    assert(text.take(j) == head + part);
    assert(text.subrange(i, j) == part);
    lemma_prefix_grows(text, i, j);
    assert(utf16_len(head + part) == utf16_len(head) + utf16_len(part)) by {
        lemma_units_concat(head, part);
        lemma_units_len(head);
        lemma_units_len(part);
        lemma_units_len(head + part);
    }
    assert(at_unit(text, i, utf16_len(head)));
    assert(at_unit(text, j, utf16_len(head) + utf16_len(part)));
    let ci = index_at_unit(text, utf16_len(head))->0;
    let cj = index_at_unit(text, utf16_len(head) + utf16_len(part))->0;
    lemma_boundary_unique(text, ci, i, utf16_len(head));
    lemma_boundary_unique(text, cj, j, utf16_len(head) + utf16_len(part));
}

/// The characters of `s`, in order.
pub fn chars_of(s: &str) -> (out: Vec<char>)
    ensures
        out@ == s@,
{
    let mut out: Vec<char> = Vec::new();
    let chars = s.chars();
    for c in it: chars
        invariant
            it.seq() == s@,
            out@ == s@.take(it.index()),
    {
        out.push(c);
    }
    out
}

/// Finds the character index that lies `units` code units into `chars`.
pub fn char_index_at(chars: &Vec<char>, units: u64) -> (found: Option<usize>)
    ensures
        match found {
            Some(i) => index_at_unit(chars@, units as nat) == Some(i as int),
            None => index_at_unit(chars@, units as nat) is None,
        },
{
    let mut i: usize = 0;
    let mut seen: u64 = 0;
    while seen < units && i < chars.len()
        invariant
            0 <= i <= chars.len(),
            seen <= units,
            seen == utf16_len(chars@.take(i as int)),
        decreases chars.len() - i,
    {
        proof {
            lemma_prefix_step(chars@, i as int);
        }
        let step: u64 = if chars[i] as u32 >= 0x10000 {
            2
        } else {
            1
        };
        if units - seen < step {
            proof {
                let s = chars@;
                assert forall|k: int| !at_unit(s, k, units as nat) by {
                    if 0 <= k <= i {
                        lemma_prefix_grows(s, k, i as int);
                    } else if i < k <= s.len() {
                        lemma_prefix_grows(s, i + 1, k);
                    }
                }
            }
            return None;
        }
        seen = seen + step;
        i = i + 1;
    }
    proof {
        let s = chars@;
        if seen == units {
            assert(at_unit(s, i as int, units as nat));
            assert forall|k: int| at_unit(s, k, units as nat) implies k == i by {
                lemma_boundary_unique(s, k, i as int, units as nat);
            }
        } else {
            assert forall|k: int| !at_unit(s, k, units as nat) by {
                if 0 <= k <= s.len() {
                    lemma_prefix_grows(s, k, i as int);
                }
            }
        }
    }
    if seen == units {
        Some(i)
    } else {
        None
    }
}

/// Cuts the span of `length` UTF-16 code units that starts `offset` code units
/// into `text`. `None` where the span does not start and end on character
/// boundaries inside `text`.
pub fn slice_utf16(text: &str, offset: u32, length: u32) -> (out: Option<String>)
    ensures
        match out {
            Some(part) => utf16_slice(text@, offset as nat, length as nat) == Some(part@),
            None => utf16_slice(text@, offset as nat, length as nat) is None,
        },
{
    let chars = chars_of(text);
    let start = char_index_at(&chars, offset as u64);
    let end = char_index_at(&chars, offset as u64 + length as u64);
    match (start, end) {
        (Some(i), Some(j)) => {
            proof {
                if j < i {
                    lemma_prefix_grows(text@, j as int, i as int);
                }
            }
            Some(text.substring_char(i, j).to_owned())
        },
        _ => None,
    }
}

/// Tells whether `needle` occurs in `haystack` starting at character `at`.
fn matches_at(haystack: &Vec<char>, needle: &Vec<char>, at: usize) -> (hit: bool)
    requires
        at + needle.len() <= haystack.len(),
    ensures
        hit == occurs_at(haystack@, needle@, at as int),
{
    let mut k: usize = 0;
    while k < needle.len()
        invariant
            0 <= k <= needle.len(),
            at + needle.len() <= haystack.len(),
            forall|t: int| 0 <= t < k ==> haystack@[at + t] == needle@[t],
        decreases needle.len() - k,
    {
        if haystack[at + k] != needle[k] {
            proof {
                let part = haystack@.subrange(at as int, at + needle.len());
                assert(part[k as int] == haystack@[at + k]);
            }
            return false;
        }
        k = k + 1;
    }
    assert(haystack@.subrange(at as int, at + needle.len()) =~= needle@);
    true
}

/// Tells whether `needle` occurs anywhere in `haystack`. The empty needle
/// occurs in every text.
pub fn has_substring(haystack: &str, needle: &str) -> (found: bool)
    ensures
        found == contains_text(haystack@, needle@),
{
    let h = chars_of(haystack);
    let n = chars_of(needle);
    if n.len() == 0 {
        assert(occurs_at(h@, n@, 0)) by {
            assert(h@.subrange(0, 0) =~= n@);
        }
        return true;
    }
    if n.len() > h.len() {
        return false;
    }
    let last: usize = h.len() - n.len();
    let mut i: usize = 0;
    while i <= last
        invariant
            0 <= i <= last + 1,
            last == h.len() - n.len(),
            n.len() > 0,
            h@ == haystack@,
            n@ == needle@,
            forall|k: int| 0 <= k < i ==> !occurs_at(h@, n@, k),
        decreases last + 1 - i,
    {
        if matches_at(&h, &n, i) {
            return true;
        }
        i = i + 1;
    }
    false
}

} // verus!
