//! Lists in settings: a bracketed, comma-separated text such as
//! `["a", "b"]` or `[1, 2]`.

use crate::eligibility::{parse_balance, parsed_balance};
use vstd::prelude::*;
use vstd::string::*;
use vstd::utf8::encode_utf8;

verus! {

/// A character with the Unicode property White_Space.
pub open spec fn is_whitespace(c: char) -> bool {
    let v = c as u32;
    (0x09 <= v <= 0x0d) || v == 0x20 || v == 0x85 || v == 0xa0 || v == 0x1680 || (0x2000 <= v
        <= 0x200a) || v == 0x2028 || v == 0x2029 || v == 0x202f || v == 0x205f || v == 0x3000
}

/// What is stripped from the ends of a text: double quotes, or whitespace.
pub open spec fn strips(c: char, quotes: bool) -> bool {
    if quotes {
        c == '"'
    } else {
        is_whitespace(c)
    }
}

pub open spec fn strip_start(s: Seq<char>, quotes: bool) -> Seq<char>
    decreases s.len(),
{
    if s.len() > 0 && strips(s[0], quotes) {
        strip_start(s.drop_first(), quotes)
    } else {
        s
    }
}

pub open spec fn strip_end(s: Seq<char>, quotes: bool) -> Seq<char>
    decreases s.len(),
{
    if s.len() > 0 && strips(s.last(), quotes) {
        strip_end(s.drop_last(), quotes)
    } else {
        s
    }
}

/// The text without the stripped characters at either end.
pub open spec fn stripped(s: Seq<char>, quotes: bool) -> Seq<char> {
    strip_end(strip_start(s, quotes), quotes)
}

/// One item of a list as it is meant: without the whitespace around it,
/// then without the double quotes around that.
pub open spec fn item_text(s: Seq<char>) -> Seq<char> {
    stripped(stripped(s, false), true)
}

/// Each piece of a list as it is meant.
pub open spec fn item_texts(pieces: Seq<Seq<char>>) -> Seq<Seq<char>> {
    pieces.map_values(|piece| item_text(piece))
}

/// The position of the first comma from `from` on; the length where there
/// is none.
pub open spec fn first_comma(s: Seq<char>, from: int) -> int
    decreases s.len() - from,
{
    if from < 0 || from >= s.len() {
        s.len() as int
    } else if s[from] == ',' {
        from
    } else {
        first_comma(s, from + 1)
    }
}

/// The pieces of a text between its commas. A text without a comma is one
/// piece, also where it is empty.
pub open spec fn split_commas(s: Seq<char>) -> Seq<Seq<char>>
    decreases s.len(),
{
    let i = first_comma(s, 0);
    if 0 <= i < s.len() {
        seq![s.subrange(0, i)] + split_commas(s.subrange(i + 1, s.len() as int))
    } else {
        seq![s]
    }
}

/// The items of a list: the text, without the whitespace around it, stands
/// in square brackets, and what is between them is split at the commas.
/// `None` where the brackets are missing.
pub open spec fn list_items(raw: Seq<char>) -> Option<Seq<Seq<char>>> {
    let t = stripped(raw, false);
    if t.len() >= 2 && t[0] == '[' && t.last() == ']' {
        Some(item_texts(split_commas(t.subrange(1, t.len() - 1))))
    } else {
        None
    }
}

pub proof fn lemma_strip_start(s: Seq<char>, quotes: bool, k: int)
    requires
        0 <= k <= s.len(),
        forall|j: int| 0 <= j < k ==> strips(#[trigger] s[j], quotes),
        k < s.len() ==> !strips(s[k], quotes),
    ensures
        strip_start(s, quotes) == s.subrange(k, s.len() as int),
    decreases k,
{
    if k == 0 {
        assert(s.subrange(0, s.len() as int) =~= s);
    } else {
        let t = s.drop_first();
        assert forall|j: int| 0 <= j < k - 1 implies strips(#[trigger] t[j], quotes) by {
            assert(t[j] == s[j + 1]);
        }
        lemma_strip_start(t, quotes, k - 1);
        assert(t.subrange(k - 1, t.len() as int) =~= s.subrange(k, s.len() as int));
    }
}

pub proof fn lemma_strip_end(s: Seq<char>, quotes: bool, k: int)
    requires
        0 <= k <= s.len(),
        forall|j: int| k <= j < s.len() ==> strips(#[trigger] s[j], quotes),
        k > 0 ==> !strips(s[k - 1], quotes),
    ensures
        strip_end(s, quotes) == s.subrange(0, k),
    decreases s.len() - k,
{
    if k == s.len() {
        assert(s.subrange(0, k) =~= s);
    } else {
        let t = s.drop_last();
        assert forall|j: int| k <= j < t.len() implies strips(#[trigger] t[j], quotes) by {
            assert(t[j] == s[j]);
        }
        lemma_strip_end(t, quotes, k);
        assert(t.subrange(0, k) =~= s.subrange(0, k));
    }
}

pub proof fn lemma_first_comma(s: Seq<char>, from: int, at: int)
    requires
        0 <= from <= at <= s.len(),
        forall|j: int| from <= j < at ==> #[trigger] s[j] != ',',
        at < s.len() ==> s[at] == ',',
    ensures
        first_comma(s, from) == at,
    decreases at - from,
{
    if from < at {
        lemma_first_comma(s, from + 1, at);
    }
}

fn is_whitespace_char(c: char) -> (r: bool)
    ensures
        r == is_whitespace(c),
{
    let v: u32 = c as u32;
    (0x09 <= v && v <= 0x0d) || v == 0x20 || v == 0x85 || v == 0xa0 || v == 0x1680 || (0x2000 <= v
        && v <= 0x200a) || v == 0x2028 || v == 0x2029 || v == 0x202f || v == 0x205f || v
        == 0x3000
}

fn strips_char(c: char, quotes: bool) -> (r: bool)
    ensures
        r == strips(c, quotes),
{
    if quotes {
        c == '"'
    } else {
        is_whitespace_char(c)
    }
}

/// Narrows a range of characters to what is left after stripping.
fn strip_range(text: &str, lo: usize, hi: usize, quotes: bool) -> (r: (usize, usize))
    requires
        lo <= hi <= text@.len(),
    ensures
        lo <= r.0 <= r.1 <= hi,
        text@.subrange(r.0 as int, r.1 as int) == stripped(
            text@.subrange(lo as int, hi as int),
            quotes,
        ),
{
    let ghost s = text@.subrange(lo as int, hi as int);
    let mut a: usize = lo;
    while a < hi && strips_char(text.get_char(a), quotes)
        invariant
            lo <= a <= hi <= text@.len(),
            s == text@.subrange(lo as int, hi as int),
            forall|j: int| 0 <= j < a - lo ==> strips(#[trigger] s[j], quotes),
        decreases hi - a,
    {
        a = a + 1;
    }
    proof {
        lemma_strip_start(s, quotes, a - lo);
    }
    let ghost t = s.subrange(a - lo, s.len() as int);
    assert(t =~= text@.subrange(a as int, hi as int));
    let mut b: usize = hi;
    while b > a && strips_char(text.get_char(b - 1), quotes)
        invariant
            a <= b <= hi <= text@.len(),
            t == text@.subrange(a as int, hi as int),
            forall|j: int| b - a <= j < t.len() ==> strips(#[trigger] t[j], quotes),
        decreases b,
    {
        b = b - 1;
    }
    proof {
        lemma_strip_end(t, quotes, b - a);
        assert(t.subrange(0, b - a) =~= text@.subrange(a as int, b as int));
    }
    (a, b)
}

/// Whether a text holds the items of a list, each by its text.
pub open spec fn holds_items(out: Seq<String>, items: Seq<Seq<char>>) -> bool {
    out.len() == items.len() && forall|i: int| 0 <= i < out.len() ==> (#[trigger] out[i])@ == items[i]
}

/// Reads a list of texts. `None` where the brackets are missing.
pub fn parse_text_list(raw: &str) -> (r: Option<Vec<String>>)
    ensures
        match list_items(raw@) {
            None => r is None,
            Some(items) => r is Some && holds_items(r->Some_0@, items),
        },
{
    let n: usize = raw.unicode_len();
    let (lo, hi) = strip_range(raw, 0, n, false);
    assert(raw@.subrange(0, n as int) =~= raw@);
    let ghost t = raw@.subrange(lo as int, hi as int);
    if hi - lo < 2 || raw.get_char(lo) != '[' || raw.get_char(hi - 1) != ']' {
        return None;
    }
    let end: usize = hi - 1;
    let ghost inner = t.subrange(1, t.len() - 1);
    let ghost all = split_commas(inner);
    let mut out: Vec<String> = Vec::new();
    let mut start: usize = lo + 1;
    let ghost mut pieces: Seq<Seq<char>> = Seq::empty();
    proof {
        assert(inner =~= raw@.subrange(lo + 1, end as int));
        assert(pieces + split_commas(inner) =~= split_commas(inner));
        assert(t[0] == raw@[lo as int]);
        assert(t.last() == raw@[hi - 1]);
    }
    loop
        invariant
            lo + 1 <= start <= end,
            end == hi - 1,
            hi <= raw@.len(),
            t == raw@.subrange(lo as int, hi as int),
            inner == raw@.subrange(lo + 1, end as int),
            all == split_commas(inner),
            pieces + split_commas(raw@.subrange(start as int, end as int)) == all,
            holds_items(out@, item_texts(pieces)),
            list_items(raw@) == Some(item_texts(all)),
        decreases end - start,
    {
        let ghost rest = raw@.subrange(start as int, end as int);
        let mut stop: usize = start;
        while stop < end && raw.get_char(stop) != ','
            invariant
                start <= stop <= end <= raw@.len(),
                rest == raw@.subrange(start as int, end as int),
                forall|j: int| 0 <= j < stop - start ==> #[trigger] rest[j] != ',',
            decreases end - stop,
        {
            stop = stop + 1;
        }
        proof {
            lemma_first_comma(rest, 0, stop - start);
        }
        let ghost piece = raw@.subrange(start as int, stop as int);
        let (a, b) = strip_range(raw, start, stop, false);
        let (c, d) = strip_range(raw, a, b, true);
        let item = raw.substring_char(c, d).to_owned();
        assert(item@ == item_text(piece));
        out.push(item);
        proof {
            assert(item_texts(pieces.push(piece)) =~= item_texts(pieces).push(item_text(piece)));
            assert(rest.subrange(0, stop - start) =~= piece);
        }
        if stop == end {
            proof {
                assert(split_commas(rest) =~= seq![rest]);
                assert(piece =~= rest);
                assert(pieces.push(piece) =~= pieces + seq![rest]);
                pieces = pieces.push(piece);
                assert(pieces == all);
            }
            return Some(out);
        }
        proof {
            let after = raw@.subrange(stop + 1, end as int);
            assert(rest.subrange(stop - start + 1, rest.len() as int) =~= after);
            assert(split_commas(rest) == seq![piece] + split_commas(after));
            assert(pieces.push(piece) + split_commas(after) =~= pieces + (seq![piece]
                + split_commas(after)));
            pieces = pieces.push(piece);
        }
        start = stop + 1;
    }
}

/// Why a setting holds no list.
#[derive(Debug, Clone, Copy, PartialEq, Eq, Structural)]
pub enum ListError {
    /// The setting is missing.
    NotSet,
    /// The text does not stand in square brackets.
    NotAnArray,
    /// An item is no port number.
    BadItem,
}

/// The port that a text denotes: an optional plus sign, then decimal digits
/// whose value is at most 65535.
pub open spec fn parsed_port(s: Seq<char>) -> Option<u16> {
    match parsed_balance(encode_utf8(s)) {
        Some(v) => if v <= 65535 {
            Some(v as u16)
        } else {
            None
        },
        None => None,
    }
}

/// The ports that the items of a list denote.
pub open spec fn ports_of(items: Seq<Seq<char>>) -> Seq<u16> {
    Seq::new(items.len(), |i: int| parsed_port(items[i])->Some_0)
}

/// The texts that a setting lists.
pub open spec fn text_list(raw: Option<String>) -> Result<Seq<Seq<char>>, ListError> {
    match raw {
        None => Err(ListError::NotSet),
        Some(text) => match list_items(text@) {
            None => Err(ListError::NotAnArray),
            Some(items) => Ok(items),
        },
    }
}

/// The ports that a setting lists. One item that is no port spoils the list.
pub open spec fn port_list(raw: Option<String>) -> Result<Seq<u16>, ListError> {
    match text_list(raw) {
        Err(e) => Err(e),
        Ok(items) => if forall|i: int| 0 <= i < items.len() ==> parsed_port(#[trigger] items[i])
            is Some {
            Ok(ports_of(items))
        } else {
            Err(ListError::BadItem)
        },
    }
}

/// Reads a port number.
pub fn parse_port(text: &str) -> (r: Option<u16>)
    ensures
        r == parsed_port(text@),
{
    match parse_balance(text) {
        Some(v) => if v <= 65535 {
            Some(v as u16)
        } else {
            None
        },
        None => None,
    }
}

/// Reads a setting that lists texts.
pub fn read_text_list(raw: &Option<String>) -> (r: Result<Vec<String>, ListError>)
    ensures
        match text_list(*raw) {
            Err(e) => r == Err::<Vec<String>, ListError>(e),
            Ok(items) => r is Ok && holds_items(r->Ok_0@, items),
        },
{
    match raw {
        None => Err(ListError::NotSet),
        Some(text) => match parse_text_list(text.as_str()) {
            None => Err(ListError::NotAnArray),
            Some(items) => Ok(items),
        },
    }
}

/// Reads a setting that lists ports.
pub fn read_port_list(raw: &Option<String>) -> (r: Result<Vec<u16>, ListError>)
    ensures
        match port_list(*raw) {
            Err(e) => r == Err::<Vec<u16>, ListError>(e),
            Ok(ports) => r is Ok && r->Ok_0@ == ports,
        },
{
    let texts = match read_text_list(raw) {
        Err(e) => {
            return Err(e);
        },
        Ok(texts) => texts,
    };
    let ghost items = text_list(*raw)->Ok_0;
    let mut ports: Vec<u16> = Vec::new();
    let mut i: usize = 0;
    while i < texts.len()
        invariant
            i <= texts@.len(),
            text_list(*raw) == Ok::<Seq<Seq<char>>, ListError>(items),
            holds_items(texts@, items),
            ports@.len() == i,
            forall|j: int| 0 <= j < i ==> parsed_port(#[trigger] items[j]) == Some(ports@[j]),
        decreases texts@.len() - i,
    {
        match parse_port(texts[i].as_str()) {
            None => {
                assert(parsed_port(items[i as int]) is None);
                return Err(ListError::BadItem);
            },
            Some(port) => {
                ports.push(port);
            },
        }
        i = i + 1;
    }
    assert(ports@ =~= ports_of(items));
    Ok(ports)
}

} // verus!
