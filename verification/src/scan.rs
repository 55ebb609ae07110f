//! Character-level scanning primitives for the option-block grammar:
//! whitespace skipping, identifier scanning, and single punctuation marks,
//! each as a spec function over the character sequence with a matching
//! executable form over positions.

use vstd::prelude::*;

verus! {

/// Whitespace accepted between tokens of an option block.
pub open spec fn is_ws(c: char) -> bool {
    c == ' ' || c == '\t' || c == '\n' || c == '\r'
}

/// A character that may open an identifier.
pub open spec fn is_ident_start(c: char) -> bool {
    (97 <= c as u32 && c as u32 <= 122) || (65 <= c as u32 && c as u32 <= 90) || c == '_'
}

/// A character that may continue an identifier.
pub open spec fn is_ident_cont(c: char) -> bool {
    is_ident_start(c) || (48 <= c as u32 && c as u32 <= 57)
}

/// The first position at or after `i` holding no whitespace.
pub open spec fn skip_ws(s: Seq<char>, i: int) -> int
    decreases s.len() - i,
    when 0 <= i <= s.len()
{
    if i < s.len() && is_ws(s[i]) {
        skip_ws(s, i + 1)
    } else {
        i
    }
}

/// The end of the identifier-continuation run that starts at `i`.
pub open spec fn ident_end(s: Seq<char>, i: int) -> int
    decreases s.len() - i,
    when 0 <= i <= s.len()
{
    if i < s.len() && is_ident_cont(s[i]) {
        ident_end(s, i + 1)
    } else {
        i
    }
}

pub broadcast proof fn lemma_skip_ws_bounds(s: Seq<char>, i: int)
    requires
        0 <= i <= s.len(),
    ensures
        i <= #[trigger] skip_ws(s, i) <= s.len(),
    decreases s.len() - i,
{
    if i < s.len() && is_ws(s[i]) {
        lemma_skip_ws_bounds(s, i + 1);
    }
}

pub broadcast proof fn lemma_ident_end_bounds(s: Seq<char>, i: int)
    requires
        0 <= i <= s.len(),
    ensures
        i <= #[trigger] ident_end(s, i) <= s.len(),
    decreases s.len() - i,
{
    if i < s.len() && is_ident_cont(s[i]) {
        lemma_ident_end_bounds(s, i + 1);
    }
}

/// The identifier that starts at or after `i`, with the position past it:
/// leading whitespace is skipped, the first character must open an
/// identifier, and the token runs to the end of the continuation run.
pub open spec fn spec_parse_ident(s: Seq<char>, i: int) -> Option<(Seq<char>, int)> {
    let j = skip_ws(s, i);
    if j < s.len() && is_ident_start(s[j]) {
        let e = ident_end(s, j + 1);
        Some((s.subrange(j, e), e))
    } else {
        None
    }
}

/// The position past the punctuation mark `c` standing at or after `i`
/// behind optional whitespace.
pub open spec fn spec_parse_punct(s: Seq<char>, i: int, c: char) -> Option<int> {
    let j = skip_ws(s, i);
    if j < s.len() && s[j] == c {
        Some(j + 1)
    } else {
        None
    }
}

/// The position past an adjacent `::` pair standing at or after `i` behind
/// optional whitespace.
pub open spec fn spec_parse_colons(s: Seq<char>, i: int) -> Option<int> {
    let j = skip_ws(s, i);
    if j + 1 < s.len() && s[j] == ':' && s[j + 1] == ':' {
        Some(j + 2)
    } else {
        None
    }
}

pub broadcast proof fn lemma_parse_ident_bounds(s: Seq<char>, i: int)
    requires
        0 <= i <= s.len(),
    ensures
        #[trigger] spec_parse_ident(s, i) matches Some(t) ==> i < t.1 <= s.len(),
{
    lemma_skip_ws_bounds(s, i);
    let j = skip_ws(s, i);
    if j < s.len() && is_ident_start(s[j]) {
        lemma_ident_end_bounds(s, j + 1);
    }
}

pub broadcast proof fn lemma_parse_punct_bounds(s: Seq<char>, i: int, c: char)
    requires
        0 <= i <= s.len(),
    ensures
        #[trigger] spec_parse_punct(s, i, c) matches Some(k) ==> i < k <= s.len(),
{
    lemma_skip_ws_bounds(s, i);
}

pub broadcast proof fn lemma_parse_colons_bounds(s: Seq<char>, i: int)
    requires
        0 <= i <= s.len(),
    ensures
        #[trigger] spec_parse_colons(s, i) matches Some(k) ==> i < k <= s.len(),
{
    lemma_skip_ws_bounds(s, i);
}

fn ws_char(c: char) -> (r: bool)
    ensures
        r == is_ws(c),
{
    c == ' ' || c == '\t' || c == '\n' || c == '\r'
}

fn ident_start_char(c: char) -> (r: bool)
    ensures
        r == is_ident_start(c),
{
    let u = c as u32;
    (97 <= u && u <= 122) || (65 <= u && u <= 90) || c == '_'
}

fn ident_cont_char(c: char) -> (r: bool)
    ensures
        r == is_ident_cont(c),
{
    let u = c as u32;
    ident_start_char(c) || (48 <= u && u <= 57)
}

pub fn skip_ws_at(s: &str, i: usize) -> (r: usize)
    requires
        i <= s@.len(),
    ensures
        r == skip_ws(s@, i as int),
        i <= r <= s@.len(),
    decreases s@.len() - i,
{
    if i < s.unicode_len() {
        if ws_char(s.get_char(i)) {
            return skip_ws_at(s, i + 1);
        }
    }
    i
}

pub fn ident_end_at(s: &str, i: usize) -> (r: usize)
    requires
        i <= s@.len(),
    ensures
        r == ident_end(s@, i as int),
        i <= r <= s@.len(),
    decreases s@.len() - i,
{
    if i < s.unicode_len() {
        if ident_cont_char(s.get_char(i)) {
            return ident_end_at(s, i + 1);
        }
    }
    i
}

pub fn parse_ident_at(s: &str, i: usize) -> (r: Option<(String, usize)>)
    requires
        i <= s@.len(),
    ensures
        r matches Some(t) ==> spec_parse_ident(s@, i as int) == Some((t.0@, t.1 as int)) && i
            < t.1 <= s@.len(),
        r is None ==> spec_parse_ident(s@, i as int) is None,
{
    let j = skip_ws_at(s, i);
    if j < s.unicode_len() {
        if ident_start_char(s.get_char(j)) {
            let e = ident_end_at(s, j + 1);
            let tok = String::from_str(s.substring_char(j, e));
            return Some((tok, e));
        }
    }
    None
}

pub fn parse_punct_at(s: &str, i: usize, c: char) -> (r: Option<usize>)
    requires
        i <= s@.len(),
    ensures
        r matches Some(k) ==> spec_parse_punct(s@, i as int, c) == Some(k as int) && i < k
            <= s@.len(),
        r is None ==> spec_parse_punct(s@, i as int, c) is None,
{
    let j = skip_ws_at(s, i);
    if j < s.unicode_len() {
        if s.get_char(j) == c {
            return Some(j + 1);
        }
    }
    None
}

pub fn parse_colons_at(s: &str, i: usize) -> (r: Option<usize>)
    requires
        i <= s@.len(),
    ensures
        r matches Some(k) ==> spec_parse_colons(s@, i as int) == Some(k as int) && i < k
            <= s@.len(),
        r is None ==> spec_parse_colons(s@, i as int) is None,
{
    let j = skip_ws_at(s, i);
    let len = s.unicode_len();
    if j < len && j + 1 < len {
        if s.get_char(j) == ':' && s.get_char(j + 1) == ':' {
            return Some(j + 2);
        }
    }
    None
}

} // verus!
