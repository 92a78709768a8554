//! Text search in a document: where a needle occurs in the document's text (as plain
//! text or as a regular expression), and which characters each occurrence covers.
use vstd::prelude::*;
use vstd::string::StringSliceAdditionalSpecFns;
use vstd::utf8::{encode_scalar, encode_utf8};
use crate::text::from_chars;

verus! {

/// How the needle is read.
#[derive(Debug, Clone, Copy, PartialEq, Eq, Structural)]
pub enum SearchMethod {
    PlainText,
    Regex,
}

/// The byte ranges `[start, end)` of the matches of the regular expression `needle` in
/// `haystack`, or `None` when `needle` is not a valid regular expression.
pub uninterp spec fn regex_matches(needle: Seq<char>, haystack: Seq<char>) -> Option<Seq<(usize, usize)>>;

/// Compiles `needle` (`regex::Regex::new`) and, if it is valid, collects the byte range of
/// every successive match in `haystack` (`Regex::captures_iter`, `Captures::get_match`).
#[verifier::external_body]
fn regex_match_ranges(needle: &str, haystack: &str) -> (r: Option<Vec<(usize, usize)>>)
    ensures
        match regex_matches(needle@, haystack@) {
            Some(ranges) => r matches Some(v) && v@ == ranges,
            None => r is None,
        },
{
    regex::Regex::new(needle).ok().map(
        |re| re.captures_iter(haystack).map(|c| (c.get_match().start(), c.get_match().end())).collect(),
    )
}

/// Whether `n` occurs in `h` at byte position `p`.
pub open spec fn occurs_at(h: Seq<u8>, n: Seq<u8>, p: int) -> bool {
    0 <= p && p + n.len() <= h.len() && h.subrange(p, p + n.len()) == n
}

/// The first position at or after `from` where `n` occurs in `h`.
pub open spec fn next_occurrence(h: Seq<u8>, n: Seq<u8>, from: int) -> Option<int>
    decreases h.len() - from,
{
    if from < 0 || from >= h.len() || from + n.len() > h.len() {
        None
    } else if occurs_at(h, n, from) {
        Some(from)
    } else {
        next_occurrence(h, n, from + 1)
    }
}

/// The successive non-overlapping occurrences of the nonempty `n` in `h` from position
/// `from` on, leftmost first, as byte ranges (`str::match_indices`).
pub open spec fn occurrences(h: Seq<u8>, n: Seq<u8>, from: int) -> Seq<(int, int)>
    decreases h.len() - from,
{
    if n.len() == 0 || from < 0 {
        Seq::empty()
    } else {
        match next_occurrence(h, n, from) {
            None => Seq::empty(),
            Some(p) => if p >= from {
                proof {
                    lemma_next_occurrence_ge(h, n, from);
                }
                seq![(p, p + n.len())] + occurrences(h, n, p + n.len())
            } else {
                Seq::empty()
            },
        }
    }
}

/// The next occurrence at or after `from` is at or after `from`, and is one.
pub proof fn lemma_next_occurrence_ge(h: Seq<u8>, n: Seq<u8>, from: int)
    ensures
        next_occurrence(h, n, from) matches Some(p) ==> from <= p && occurs_at(h, n, p),
    decreases h.len() - from,
{
    if !(from < 0 || from >= h.len() || from + n.len() > h.len()) && !occurs_at(h, n, from) {
        lemma_next_occurrence_ge(h, n, from + 1);
    }
}

/// Every plain-text match is an occurrence of the needle, no earlier than where the search
/// started, and the matches come left to right without overlapping.
pub proof fn lemma_occurrences_are_matches(h: Seq<u8>, n: Seq<u8>, from: int)
    ensures
        forall|k: int| 0 <= k < occurrences(h, n, from).len() ==> {
            let (s, e) = #[trigger] occurrences(h, n, from)[k];
            &&& from <= s
            &&& e == s + n.len()
            &&& occurs_at(h, n, s)
        },
        forall|k: int, l: int| 0 <= k < l < occurrences(h, n, from).len() ==>
            #[trigger] occurrences(h, n, from)[k].1 <= #[trigger] occurrences(h, n, from)[l].0,
    decreases h.len() - from,
{
    if n.len() > 0 && from >= 0 {
        lemma_next_occurrence_ge(h, n, from);
        match next_occurrence(h, n, from) {
            None => {},
            Some(p) => {
                if p >= from {
                    let rest = occurrences(h, n, p + n.len());
                    lemma_occurrences_are_matches(h, n, p + n.len());
                    let all = occurrences(h, n, from);
                    assert(all == seq![(p, p + n.len())] + rest);
                    assert forall|k: int| 0 <= k < all.len() implies {
                        let (s, e) = #[trigger] all[k];
                        &&& from <= s
                        &&& e == s + n.len()
                        &&& occurs_at(h, n, s)
                    } by {
                        if k > 0 {
                            assert(all[k] == rest[k - 1]);
                        }
                    }
                    assert forall|k: int, l: int| 0 <= k < l < all.len() implies #[trigger] all[k].1
                        <= #[trigger] all[l].0 by {
                        assert(all[l] == rest[l - 1]);
                        if k > 0 {
                            assert(all[k] == rest[k - 1]);
                        }
                    }
                }
            },
        }
    }
}

fn occurs_at_exec(h: &[u8], n: &[u8], p: usize) -> (r: bool)
    requires
        p + n.len() <= h.len(),
    ensures
        r == occurs_at(h@, n@, p as int),
{
    let mut j: usize = 0;
    while j < n.len()
        invariant
            p + n.len() <= h.len(),
            j <= n@.len(),
            forall|k: int| 0 <= k < j ==> h@[p + k] == n@[k],
        decreases n@.len() - j,
    {
        if h[p + j] != n[j] {
            assert(h@.subrange(p as int, p + n@.len())[j as int] != n@[j as int]);
            return false;
        }
        j = j + 1;
    }
    assert(h@.subrange(p as int, p + n@.len()) =~= n@);
    true
}

/// The byte ranges of the non-overlapping occurrences of `needle` in `haystack`, leftmost
/// first (`occurrences` over the UTF-8 bytes).
pub fn plain_matches(haystack: &str, needle: &str) -> (r: Vec<(usize, usize)>)
    ensures
        r@.map_values(|m: (usize, usize)| (m.0 as int, m.1 as int)) == occurrences(
            encode_utf8(haystack@),
            encode_utf8(needle@),
            0,
        ),
{
    let h = haystack.as_bytes();
    let n = needle.as_bytes();
    if n.len() == 0 || n.len() > h.len() {
        return Vec::new();
    }
    let ghost hs = h@;
    let ghost ns = n@;
    let mut out: Vec<(usize, usize)> = Vec::new();
    let mut i: usize = 0;
    let last = h.len() - n.len();
    while i <= last
        invariant
            last == h.len() - n.len(),
            n.len() <= h.len(),
            hs == h@,
            ns == n@,
            ns.len() > 0,
            i <= hs.len(),
            out@.map_values(|m: (usize, usize)| (m.0 as int, m.1 as int)) + occurrences(hs, ns, i as int)
                == occurrences(hs, ns, 0),
        decreases hs.len() - i,
    {
        let ghost prev = out@;
        if occurs_at_exec(h, n, i) {
            out.push((i, i + n.len()));
            assert(out@.map_values(|m: (usize, usize)| (m.0 as int, m.1 as int)) =~= prev.map_values(
                |m: (usize, usize)| (m.0 as int, m.1 as int),
            ).push((i as int, i + ns.len())));
            assert(occurrences(hs, ns, i as int) =~= seq![(i as int, i + ns.len())] + occurrences(
                hs,
                ns,
                i + ns.len(),
            ));
            i = i + n.len();
        } else {
            proof {
                lemma_next_occurrence_ge(hs, ns, i + 1);
            }
            assert(occurrences(hs, ns, i as int) == occurrences(hs, ns, i + 1));
            i = i + 1;
        }
    }
    assert(occurrences(hs, ns, i as int) =~= Seq::<(int, int)>::empty());
    assert(out@.map_values(|m: (usize, usize)| (m.0 as int, m.1 as int)) =~= occurrences(hs, ns, 0));
    out
}

/// Where the searches of `needle` in `haystack` find it: the byte ranges of its plain-text
/// occurrences or of the matches of the regular expression; nothing for an empty needle or
/// an invalid regular expression.
pub open spec fn search_ranges(haystack: &str, needle: &str, method: SearchMethod) -> Seq<(int, int)> {
    if needle@.len() == 0 {
        Seq::empty()
    } else {
        match method {
            SearchMethod::PlainText => occurrences(encode_utf8(haystack@), encode_utf8(needle@), 0),
            SearchMethod::Regex => match regex_matches(needle@, haystack@) {
                Some(ranges) => ranges.map_values(|m: (usize, usize)| (m.0 as int, m.1 as int)),
                None => Seq::empty(),
            },
        }
    }
}

/// The byte ranges where `needle` is found in `haystack` (`search_ranges`).
pub fn search_byte_ranges(haystack: &str, needle: &str, method: SearchMethod) -> (r: Vec<
    (usize, usize),
>)
    ensures
        r@.map_values(|m: (usize, usize)| (m.0 as int, m.1 as int)) == search_ranges(
            haystack,
            needle,
            method,
        ),
{
    if needle.is_empty() {
        return Vec::new();
    }
    match method {
        SearchMethod::PlainText => plain_matches(haystack, needle),
        SearchMethod::Regex => match regex_match_ranges(needle, haystack) {
            Some(ranges) => ranges,
            None => Vec::new(),
        },
    }
}

/// The UTF-8 encoding of `s` followed by `c` is that of `s` followed by that of `c`.
proof fn lemma_encode_push(s: Seq<char>, c: char)
    ensures
        encode_utf8(s.push(c)) == encode_utf8(s) + encode_scalar(c as u32),
    decreases s.len(),
{
    if s.len() == 0 {
        assert(s.push(c).drop_first() =~= Seq::<char>::empty());
        assert(encode_utf8(s.push(c).drop_first()) =~= Seq::<u8>::empty());
        assert(s.push(c)[0] == c);
        assert(encode_utf8(s) =~= Seq::<u8>::empty());
        assert(encode_utf8(s.push(c)) =~= encode_scalar(c as u32));
    } else {
        assert(s.push(c).drop_first() =~= s.drop_first().push(c));
        lemma_encode_push(s.drop_first(), c);
        assert(encode_utf8(s.push(c)) =~= encode_utf8(s) + encode_scalar(c as u32));
    }
}

/// The number of bytes of the UTF-8 encoding of `c`.
fn utf8_width(c: char) -> (r: usize)
    ensures
        r == encode_scalar(c as u32).len(),
        1 <= r <= 4,
{
    let v = c as u32;
    if v <= 0x7F {
        1
    } else if v <= 0x7FF {
        2
    } else if v <= 0xFFFF {
        proof {
            vstd::utf8::char_is_scalar(c);
        }
        3
    } else {
        4
    }
}

/// The text of a document for searching, and where each of its characters is: for the
/// `k`-th character, the byte offset of the last byte of its UTF-8 encoding in the text,
/// with the box given for it.
pub open spec fn search_offset(chars: Seq<char>, k: int) -> int {
    encode_utf8(chars.take(k + 1)).len() - 1
}

/// The characters of a document with their boxes: the text they spell, and each character's
/// box paired with the byte offset of the character's last byte in that text.
pub fn search_data<R: Copy>(chars: &[(char, R)]) -> (r: (String, Vec<(usize, R)>))
    requires
        chars@.len() * 4 <= usize::MAX,
    ensures
        r.0@ == chars@.map_values(|p: (char, R)| p.0),
        r.1@.len() == chars@.len(),
        forall|k: int| 0 <= k < chars@.len() ==> #[trigger] r.1@[k] == (
            search_offset(chars@.map_values(|p: (char, R)| p.0), k) as usize,
            chars@[k].1,
        ),
{
    let ghost text = chars@.map_values(|p: (char, R)| p.0);
    let mut all_text: Vec<char> = Vec::new();
    let mut boxes: Vec<(usize, R)> = Vec::new();
    let mut bytes: usize = 0;
    let mut i: usize = 0;
    while i < chars.len()
        invariant
            i <= chars@.len(),
            chars@.len() * 4 <= usize::MAX,
            text == chars@.map_values(|p: (char, R)| p.0),
            all_text@ == text.take(i as int),
            bytes == encode_utf8(text.take(i as int)).len(),
            bytes <= 4 * i,
            boxes@.len() == i,
            forall|k: int| 0 <= k < i ==> #[trigger] boxes@[k] == (
                search_offset(text, k) as usize,
                chars@[k].1,
            ),
        decreases chars@.len() - i,
    {
        let (c, b) = chars[i];
        proof {
            lemma_encode_push(text.take(i as int), c);
            assert(text.take(i + 1) =~= text.take(i as int).push(c));
        }
        all_text.push(c);
        bytes = bytes + utf8_width(c);
        boxes.push((bytes - 1, b));
        i = i + 1;
    }
    assert(text.take(chars@.len() as int) =~= text);
    (from_chars(all_text.as_slice()), boxes)
}

/// The characters (page, box) among `char_boxes` (page, byte offset, box) whose byte
/// offset lies in `[start, end)`, in order.
pub open spec fn boxes_in_range<R>(char_boxes: Seq<(usize, usize, R)>, start: int, end: int) -> Seq<
    (usize, R),
>
    decreases char_boxes.len(),
{
    if char_boxes.len() == 0 {
        Seq::empty()
    } else {
        let rest = boxes_in_range(char_boxes.drop_last(), start, end);
        let c = char_boxes.last();
        if start <= c.1 && c.1 < end {
            rest.push((c.0, c.2))
        } else {
            rest
        }
    }
}

/// The characters of a match `[start, end)`: those whose byte offset lies in it.
pub fn chars_in_range<R: Copy>(char_boxes: &[(usize, usize, R)], start: usize, end: usize) -> (r:
    Vec<(usize, R)>)
    ensures
        r@ == boxes_in_range(char_boxes@, start as int, end as int),
{
    let mut out: Vec<(usize, R)> = Vec::new();
    let mut i: usize = 0;
    while i < char_boxes.len()
        invariant
            i <= char_boxes@.len(),
            out@ == boxes_in_range(char_boxes@.take(i as int), start as int, end as int),
        decreases char_boxes@.len() - i,
    {
        let (page_idx, byte_offset, rect) = char_boxes[i];
        assert(char_boxes@.take(i + 1).drop_last() =~= char_boxes@.take(i as int));
        if byte_offset >= start && byte_offset < end {
            out.push((page_idx, rect));
        }
        i = i + 1;
    }
    assert(char_boxes@.take(char_boxes@.len() as int) =~= char_boxes@);
    out
}

} // verus!
