//! The option-block grammar: a comma-separated list of directives, each a
//! keyword followed by a parenthesized, comma-separated list. The allow and
//! exclude directives list platform keywords; the traits directive — accepted
//! only for type declarations — lists capability paths. A parse failure is
//! fatal for the block: one diagnostic, nothing generated.

use vstd::prelude::*;

use crate::diag::{Anchor, Diagnostic};
use crate::platform::Platform;
use crate::resolve::AttrOptions;
use crate::scan::{
    skip_ws, spec_parse_colons, spec_parse_ident, spec_parse_punct, lemma_skip_ws_bounds,
    lemma_ident_end_bounds, lemma_parse_ident_bounds, lemma_parse_punct_bounds,
    lemma_parse_colons_bounds, skip_ws_at, parse_ident_at, parse_punct_at, parse_colons_at,
};
use crate::text::{push_char, str_eq};

verus! {

broadcast use lemma_skip_ws_bounds, lemma_ident_end_bounds, lemma_parse_ident_bounds,
    lemma_parse_punct_bounds, lemma_parse_colons_bounds;

/// The spelling of the directive keyword that opens the allow list.
pub open spec fn allow_kw() -> Seq<char> {
    seq!['i', 'n', 'c', 'l', 'u', 'd', 'e']
}

/// The spelling of the directive keyword that opens the exclude list.
pub open spec fn exclude_kw() -> Seq<char> {
    "exclude"@
}

/// The spelling of the directive keyword that opens the capability list.
pub open spec fn traits_kw() -> Seq<char> {
    "traits"@
}

/// The platform group named by an identifier token, if any.
pub open spec fn platform_of(tok: Seq<char>) -> Option<Platform> {
    if tok == "all"@ {
        Some(Platform::All)
    } else if tok == "posix"@ {
        Some(Platform::Posix)
    } else if tok == "linux"@ {
        Some(Platform::Linux)
    } else if tok == "macos"@ {
        Some(Platform::Macos)
    } else if tok == "windows"@ {
        Some(Platform::Windows)
    } else {
        None
    }
}

/// The parsed content of an option block: the allow groups, the exclude
/// groups, and the capability paths, each in the order written.
#[verifier::ext_equal]
pub ghost struct OptionsV {
    pub allow: Seq<Platform>,
    pub exclude: Seq<Platform>,
    pub traits: Seq<Seq<char>>,
}

/// One parsed directive.
pub ghost enum EntryV {
    Allowed(Seq<Platform>),
    Excluded(Seq<Platform>),
    Traits(Seq<Seq<char>>),
}

pub open spec fn empty_options() -> OptionsV {
    OptionsV { allow: Seq::empty(), exclude: Seq::empty(), traits: Seq::empty() }
}

/// Prepends the items of one directive to the fitting list of the directives
/// parsed after it.
pub open spec fn merge_entry(e: EntryV, rest: OptionsV) -> OptionsV {
    match e {
        EntryV::Allowed(ps) => OptionsV {
            allow: ps + rest.allow,
            exclude: rest.exclude,
            traits: rest.traits,
        },
        EntryV::Excluded(ps) => OptionsV {
            allow: rest.allow,
            exclude: ps + rest.exclude,
            traits: rest.traits,
        },
        EntryV::Traits(ts) => OptionsV {
            allow: rest.allow,
            exclude: rest.exclude,
            traits: ts + rest.traits,
        },
    }
}

/// The platform keywords standing between a directive's parentheses,
/// starting just past the opening one: an optionally empty, comma-separated
/// list with an optional trailing comma, closed by `)`. Yields the keywords
/// and the position past the closing parenthesis.
pub open spec fn spec_parse_platform_list(s: Seq<char>, i: int) -> Option<(Seq<Platform>, int)>
    decreases s.len() - i,
    when 0 <= i <= s.len()
{
    match spec_parse_punct(s, i, ')') {
        Some(j) => Some((Seq::empty(), j)),
        None => match spec_parse_ident(s, i) {
            None => None,
            Some((tok, j)) => match platform_of(tok) {
                None => None,
                Some(p) => match spec_parse_punct(s, j, ')') {
                    Some(k) => Some((seq![p], k)),
                    None => match spec_parse_punct(s, j, ',') {
                        None => None,
                        Some(k) => match spec_parse_platform_list(s, k) {
                            None => None,
                            Some((rest, m)) => Some((seq![p] + rest, m)),
                        },
                    },
                },
            },
        },
    }
}

/// A capability path: an identifier, optionally continued by `::` and a
/// further path. Yields the path text with its segments joined by `::`.
pub open spec fn spec_parse_path(s: Seq<char>, i: int) -> Option<(Seq<char>, int)>
    decreases s.len() - i,
    when 0 <= i <= s.len()
{
    match spec_parse_ident(s, i) {
        None => None,
        Some((seg, j)) => match spec_parse_colons(s, j) {
            None => Some((seg, j)),
            Some(k) => match spec_parse_path(s, k) {
                None => None,
                Some((rest, m)) => Some((seg + "::"@ + rest, m)),
            },
        },
    }
}

/// The capability paths standing between a directive's parentheses, shaped
/// as the platform list is.
pub open spec fn spec_parse_trait_list(s: Seq<char>, i: int) -> Option<(Seq<Seq<char>>, int)>
    decreases s.len() - i,
    when 0 <= i <= s.len()
{
    match spec_parse_punct(s, i, ')') {
        Some(j) => Some((Seq::empty(), j)),
        None => match spec_parse_path(s, i) {
            None => None,
            Some((path, j)) => match spec_parse_punct(s, j, ')') {
                Some(k) => Some((seq![path], k)),
                None => match spec_parse_punct(s, j, ',') {
                    None => None,
                    Some(k) => {
                        proof {
                            lemma_parse_path_bounds(s, i);
                        }
                        match spec_parse_trait_list(s, k) {
                            None => None,
                            Some((rest, m)) => Some((seq![path] + rest, m)),
                        }
                    },
                },
            },
        },
    }
}

/// One directive: its keyword, `(`, its list, `)`. The traits keyword is
/// recognized only when `allow_traits` holds.
pub open spec fn spec_parse_entry(s: Seq<char>, i: int, allow_traits: bool) -> Option<
    (EntryV, int),
> {
    match spec_parse_ident(s, i) {
        None => None,
        Some((kw, j)) => if kw == allow_kw() {
            match spec_parse_punct(s, j, '(') {
                None => None,
                Some(k) => match spec_parse_platform_list(s, k) {
                    None => None,
                    Some((ps, m)) => Some((EntryV::Allowed(ps), m)),
                },
            }
        } else if kw == exclude_kw() {
            match spec_parse_punct(s, j, '(') {
                None => None,
                Some(k) => match spec_parse_platform_list(s, k) {
                    None => None,
                    Some((ps, m)) => Some((EntryV::Excluded(ps), m)),
                },
            }
        } else if allow_traits && kw == traits_kw() {
            match spec_parse_punct(s, j, '(') {
                None => None,
                Some(k) => match spec_parse_trait_list(s, k) {
                    None => None,
                    Some((ts, m)) => Some((EntryV::Traits(ts), m)),
                },
            }
        } else {
            None
        },
    }
}

pub broadcast proof fn lemma_parse_path_bounds(s: Seq<char>, i: int)
    requires
        0 <= i <= s.len(),
    ensures
        #[trigger] spec_parse_path(s, i) matches Some(t) ==> i < t.1 <= s.len(),
    decreases s.len() - i,
{
    match spec_parse_ident(s, i) {
        None => {},
        Some((seg, j)) => {
            match spec_parse_colons(s, j) {
                None => {},
                Some(k) => {
                    lemma_parse_path_bounds(s, k);
                },
            }
        },
    }
}

pub broadcast proof fn lemma_parse_platform_list_bounds(s: Seq<char>, i: int)
    requires
        0 <= i <= s.len(),
    ensures
        #[trigger] spec_parse_platform_list(s, i) matches Some(t) ==> i < t.1 <= s.len(),
    decreases s.len() - i,
{
    if spec_parse_punct(s, i, ')') is None {
        match spec_parse_ident(s, i) {
            None => {},
            Some((tok, j)) => {
                if platform_of(tok) is Some && spec_parse_punct(s, j, ')') is None {
                    match spec_parse_punct(s, j, ',') {
                        None => {},
                        Some(k) => {
                            lemma_parse_platform_list_bounds(s, k);
                        },
                    }
                }
            },
        }
    }
}

pub broadcast proof fn lemma_parse_trait_list_bounds(s: Seq<char>, i: int)
    requires
        0 <= i <= s.len(),
    ensures
        #[trigger] spec_parse_trait_list(s, i) matches Some(t) ==> i < t.1 <= s.len(),
    decreases s.len() - i,
{
    if spec_parse_punct(s, i, ')') is None {
        lemma_parse_path_bounds(s, i);
        match spec_parse_path(s, i) {
            None => {},
            Some((path, j)) => {
                if spec_parse_punct(s, j, ')') is None {
                    match spec_parse_punct(s, j, ',') {
                        None => {},
                        Some(k) => {
                            lemma_parse_trait_list_bounds(s, k);
                        },
                    }
                }
            },
        }
    }
}

pub broadcast proof fn lemma_parse_entry_bounds(s: Seq<char>, i: int)
    requires
        0 <= i <= s.len(),
    ensures
        #[trigger] spec_parse_entry(s, i, true) matches Some(t) ==> i < t.1 <= s.len(),
        #[trigger] spec_parse_entry(s, i, false) matches Some(t) ==> i < t.1 <= s.len(),
{
    match spec_parse_ident(s, i) {
        None => {},
        Some((kw, j)) => {
            match spec_parse_punct(s, j, '(') {
                None => {},
                Some(k) => {
                    lemma_parse_platform_list_bounds(s, k);
                    lemma_parse_trait_list_bounds(s, k);
                },
            }
        },
    }
}

/// The directives from position `i` to the end of the block: one directive,
/// then either the end of the input, or a comma followed by the end of the
/// input or by further directives.
pub open spec fn spec_parse_entries(s: Seq<char>, i: int, allow_traits: bool) -> Option<OptionsV>
    decreases s.len() - i,
    when 0 <= i <= s.len()
{
    match spec_parse_entry(s, i, allow_traits) {
        None => None,
        Some((e, j)) => {
            proof {
                lemma_parse_entry_bounds(s, i);
            }
            if skip_ws(s, j) == s.len() {
                Some(merge_entry(e, empty_options()))
            } else {
                match spec_parse_punct(s, j, ',') {
                    None => None,
                    Some(k) => if skip_ws(s, k) == s.len() {
                        Some(merge_entry(e, empty_options()))
                    } else {
                        match spec_parse_entries(s, k, allow_traits) {
                            None => None,
                            Some(rest) => Some(merge_entry(e, rest)),
                        }
                    },
                }
            }
        },
    }
}

/// The whole option block: empty input parses to the empty directives;
/// anything else must be a directive list covering the input.
pub open spec fn spec_parse_options(s: Seq<char>, allow_traits: bool) -> Option<OptionsV> {
    if skip_ws(s, 0) == s.len() {
        Some(empty_options())
    } else {
        spec_parse_entries(s, 0, allow_traits)
    }
}

/// The parse-time allow default: an empty allow list is replaced by the
/// whole-vocabulary group, once, before resolution.
pub open spec fn with_allow_default(o: OptionsV) -> OptionsV {
    if o.allow.len() == 0 {
        OptionsV { allow: seq![Platform::All], exclude: o.exclude, traits: o.traits }
    } else {
        o
    }
}

/// The option block of a type declaration: the platform directives together
/// with the capability paths of its traits directive.
pub struct StructOptions {
    pub options: AttrOptions,
    pub traits: Vec<String>,
}

impl View for StructOptions {
    type V = OptionsV;

    open spec fn view(&self) -> OptionsV {
        OptionsV {
            allow: self.options.allow@,
            exclude: self.options.exclude@,
            traits: self.traits.deep_view(),
        }
    }
}

/// One parsed directive, in executable form.
pub enum Entry {
    Allowed(Vec<Platform>),
    Excluded(Vec<Platform>),
    Traits(Vec<String>),
}

impl View for Entry {
    type V = EntryV;

    open spec fn view(&self) -> EntryV {
        match self {
            Entry::Allowed(ps) => EntryV::Allowed(ps@),
            Entry::Excluded(ps) => EntryV::Excluded(ps@),
            Entry::Traits(ts) => EntryV::Traits(ts.deep_view()),
        }
    }
}

/// Whether the token spells the allow directive's keyword.
fn is_allow_kw_str(tok: &str) -> (r: bool)
    ensures
        r == (tok@ == allow_kw()),
{
    let kw = allow_keyword();
    str_eq(tok, kw.as_str())
}

/// The allow directive's keyword, as it is written in an option block.
pub fn allow_keyword() -> (r: String)
    ensures
        r@ == allow_kw(),
{
    let mut s = String::new();
    push_char(&mut s, 'i');
    push_char(&mut s, 'n');
    push_char(&mut s, 'c');
    push_char(&mut s, 'l');
    push_char(&mut s, 'u');
    push_char(&mut s, 'd');
    push_char(&mut s, 'e');
    proof {
        assert(s@ =~= allow_kw());
    }
    s
}

/// The exclude directive's keyword, as it is written in an option block.
pub fn exclude_keyword() -> (r: String)
    ensures
        r@ == exclude_kw(),
{
    String::from_str("exclude")
}

impl Platform {
    /// The platform group named by an identifier token, if any.
    pub fn parse(tok: &str) -> (r: Option<Platform>)
        ensures
            r == platform_of(tok@),
    {
        if str_eq(tok, "all") {
            Some(Platform::All)
        } else if str_eq(tok, "posix") {
            Some(Platform::Posix)
        } else if str_eq(tok, "linux") {
            Some(Platform::Linux)
        } else if str_eq(tok, "macos") {
            Some(Platform::Macos)
        } else if str_eq(tok, "windows") {
            Some(Platform::Windows)
        } else {
            None
        }
    }
}

fn parse_platform_list_at(s: &str, i: usize) -> (r: Option<(Vec<Platform>, usize)>)
    requires
        i <= s@.len(),
    ensures
        r matches Some(t) ==> spec_parse_platform_list(s@, i as int) == Some((t.0@, t.1 as int))
            && i < t.1 <= s@.len(),
        r is None ==> spec_parse_platform_list(s@, i as int) is None,
    decreases s@.len() - i,
{
    match parse_punct_at(s, i, ')') {
        Some(j) => {
            let v: Vec<Platform> = Vec::new();
            proof {
                assert(v@ =~= Seq::<Platform>::empty());
            }
            Some((v, j))
        },
        None => match parse_ident_at(s, i) {
            None => None,
            Some((tok, j)) => match Platform::parse(tok.as_str()) {
                None => None,
                Some(p) => match parse_punct_at(s, j, ')') {
                    Some(k) => {
                        let mut v: Vec<Platform> = Vec::new();
                        v.push(p);
                        proof {
                            assert(v@ =~= seq![p]);
                        }
                        Some((v, k))
                    },
                    None => match parse_punct_at(s, j, ',') {
                        None => None,
                        Some(k) => match parse_platform_list_at(s, k) {
                            None => None,
                            Some((rest, m)) => {
                                let ghost rest_view = rest@;
                                let mut v = rest;
                                v.insert(0, p);
                                proof {
                                    assert(v@ =~= seq![p] + rest_view);
                                }
                                Some((v, m))
                            },
                        },
                    },
                },
            },
        },
    }
}

fn parse_path_at(s: &str, i: usize) -> (r: Option<(String, usize)>)
    requires
        i <= s@.len(),
    ensures
        r matches Some(t) ==> spec_parse_path(s@, i as int) == Some((t.0@, t.1 as int)) && i
            < t.1 <= s@.len(),
        r is None ==> spec_parse_path(s@, i as int) is None,
    decreases s@.len() - i,
{
    match parse_ident_at(s, i) {
        None => None,
        Some((seg, j)) => match parse_colons_at(s, j) {
            None => Some((seg, j)),
            Some(k) => match parse_path_at(s, k) {
                None => None,
                Some((rest, m)) => {
                    let mut t = seg;
                    t.append("::");
                    t.append(rest.as_str());
                    Some((t, m))
                },
            },
        },
    }
}

fn parse_trait_list_at(s: &str, i: usize) -> (r: Option<(Vec<String>, usize)>)
    requires
        i <= s@.len(),
    ensures
        r matches Some(t) ==> spec_parse_trait_list(s@, i as int) == Some(
            (t.0.deep_view(), t.1 as int),
        ) && i < t.1 <= s@.len(),
        r is None ==> spec_parse_trait_list(s@, i as int) is None,
    decreases s@.len() - i,
{
    match parse_punct_at(s, i, ')') {
        Some(j) => {
            let v: Vec<String> = Vec::new();
            proof {
                assert(v.deep_view() =~= Seq::<Seq<char>>::empty());
            }
            Some((v, j))
        },
        None => match parse_path_at(s, i) {
            None => None,
            Some((path, j)) => match parse_punct_at(s, j, ')') {
                Some(k) => {
                    let ghost path_view = path@;
                    let mut v: Vec<String> = Vec::new();
                    v.push(path);
                    proof {
                        assert(v.deep_view() =~= seq![path_view]);
                    }
                    Some((v, k))
                },
                None => match parse_punct_at(s, j, ',') {
                    None => None,
                    Some(k) => match parse_trait_list_at(s, k) {
                        None => None,
                        Some((rest, m)) => {
                            let ghost path_view = path@;
                            let ghost rest_view = rest.deep_view();
                            let mut v = rest;
                            v.insert(0, path);
                            proof {
                                assert(v.deep_view() =~= seq![path_view] + rest_view);
                            }
                            Some((v, m))
                        },
                    },
                },
            },
        },
    }
}

fn parse_entry_at(s: &str, i: usize, allow_traits: bool) -> (r: Option<(Entry, usize)>)
    requires
        i <= s@.len(),
    ensures
        r matches Some(t) ==> spec_parse_entry(s@, i as int, allow_traits) == Some(
            (t.0@, t.1 as int),
        ) && i < t.1 <= s@.len(),
        r is None ==> spec_parse_entry(s@, i as int, allow_traits) is None,
{
    match parse_ident_at(s, i) {
        None => None,
        Some((kw, j)) => if is_allow_kw_str(kw.as_str()) {
            match parse_punct_at(s, j, '(') {
                None => None,
                Some(k) => match parse_platform_list_at(s, k) {
                    None => None,
                    Some((ps, m)) => Some((Entry::Allowed(ps), m)),
                },
            }
        } else if str_eq(kw.as_str(), "exclude") {
            match parse_punct_at(s, j, '(') {
                None => None,
                Some(k) => match parse_platform_list_at(s, k) {
                    None => None,
                    Some((ps, m)) => Some((Entry::Excluded(ps), m)),
                },
            }
        } else if allow_traits && str_eq(kw.as_str(), "traits") {
            match parse_punct_at(s, j, '(') {
                None => None,
                Some(k) => match parse_trait_list_at(s, k) {
                    None => None,
                    Some((ts, m)) => Some((Entry::Traits(ts), m)),
                },
            }
        } else {
            None
        },
    }
}

fn empty_struct_options() -> (r: StructOptions)
    ensures
        r@ == empty_options(),
{
    let r = StructOptions {
        options: AttrOptions { allow: Vec::new(), exclude: Vec::new() },
        traits: Vec::new(),
    };
    proof {
        assert(r@ =~= empty_options());
    }
    r
}

fn merge_entry_exec(e: Entry, rest: StructOptions) -> (r: StructOptions)
    ensures
        r@ == merge_entry(e@, rest@),
{
    let ghost e_view = e@;
    let ghost rest_view = rest@;
    let mut rest = rest;
    match e {
        Entry::Allowed(ps) => {
            let mut ps = ps;
            ps.append(&mut rest.options.allow);
            rest.options.allow = ps;
        },
        Entry::Excluded(ps) => {
            let mut ps = ps;
            ps.append(&mut rest.options.exclude);
            rest.options.exclude = ps;
        },
        Entry::Traits(ts) => {
            let ghost ts_view = ts.deep_view();
            let mut ts = ts;
            ts.append(&mut rest.traits);
            proof {
                assert(ts.deep_view() =~= ts_view + rest_view.traits);
            }
            rest.traits = ts;
        },
    }
    proof {
        assert(rest@ =~= merge_entry(e_view, rest_view));
    }
    rest
}

fn parse_entries_at(s: &str, i: usize, allow_traits: bool) -> (r: Option<StructOptions>)
    requires
        i <= s@.len(),
    ensures
        r matches Some(o) ==> spec_parse_entries(s@, i as int, allow_traits) == Some(o@),
        r is None ==> spec_parse_entries(s@, i as int, allow_traits) is None,
    decreases s@.len() - i,
{
    match parse_entry_at(s, i, allow_traits) {
        None => None,
        Some((e, j)) => {
            if skip_ws_at(s, j) == s.unicode_len() {
                Some(merge_entry_exec(e, empty_struct_options()))
            } else {
                match parse_punct_at(s, j, ',') {
                    None => None,
                    Some(k) => {
                        if skip_ws_at(s, k) == s.unicode_len() {
                            Some(merge_entry_exec(e, empty_struct_options()))
                        } else {
                            match parse_entries_at(s, k, allow_traits) {
                                None => None,
                                Some(rest) => Some(merge_entry_exec(e, rest)),
                            }
                        }
                    },
                }
            }
        },
    }
}

/// The message of the diagnostic for an option block that does not parse.
pub open spec fn parse_err_msg() -> Seq<char> {
    "malformed option block: unknown keyword or malformed list"@
}

/// Parses a whole option block. A block that does not fit the grammar yields
/// one fatal diagnostic, anchored at the option block; on success, an empty
/// allow list has been defaulted to the whole-vocabulary group.
pub fn parse_attributes(input: &str, allow_traits: bool) -> (r: Result<StructOptions, Diagnostic>)
    ensures
        r matches Ok(o) ==> spec_parse_options(input@, allow_traits) matches Some(m) && o@
            == with_allow_default(m),
        r matches Err(d) ==> spec_parse_options(input@, allow_traits) is None && d.message@
            == parse_err_msg() && d.anchor == Anchor::OptionBlock,
{
    let len = input.unicode_len();
    if skip_ws_at(input, 0) == len {
        let mut o = empty_struct_options();
        o.options.allow.push(Platform::All);
        proof {
            assert(o@ =~= with_allow_default(empty_options()));
        }
        return Ok(o);
    }
    match parse_entries_at(input, 0, allow_traits) {
        None => Err(
            Diagnostic::new(
                String::from_str("malformed option block: unknown keyword or malformed list"),
                Anchor::OptionBlock,
            ),
        ),
        Some(o) => {
            let ghost m = spec_parse_entries(input@, 0, allow_traits)->0;
            let mut o = o;
            if o.options.allow.len() == 0 {
                o.options.allow.push(Platform::All);
                proof {
                    assert(o@ =~= with_allow_default(m));
                }
            } else {
                proof {
                    assert(o@ =~= with_allow_default(m));
                }
            }
            Ok(o)
        },
    }
}

impl AttrOptions {
    /// Parses the option block of a callable or module declaration, where
    /// the traits directive is not accepted.
    pub fn parse(input: &str) -> (r: Result<AttrOptions, Diagnostic>)
        ensures
            r matches Ok(o) ==> spec_parse_options(input@, false) matches Some(m) && ({
                let d = with_allow_default(m);
                o.allow@ == d.allow && o.exclude@ == d.exclude && d.traits.len() == 0
            }),
            r matches Err(d) ==> spec_parse_options(input@, false) is None && d.message@
                == parse_err_msg() && d.anchor == Anchor::OptionBlock,
    {
        match parse_attributes(input, false) {
            Ok(o) => {
                proof {
                    if skip_ws(input@, 0) != input@.len() {
                        lemma_no_traits_when_disallowed(input@, 0);
                    }
                }
                Ok(o.options)
            },
            Err(d) => Err(d),
        }
    }
}

impl StructOptions {
    /// Parses the option block of a type declaration, where the traits
    /// directive is accepted.
    pub fn parse(input: &str) -> (r: Result<StructOptions, Diagnostic>)
        ensures
            r matches Ok(o) ==> spec_parse_options(input@, true) matches Some(m) && o@
                == with_allow_default(m),
            r matches Err(d) ==> spec_parse_options(input@, true) is None && d.message@
                == parse_err_msg() && d.anchor == Anchor::OptionBlock,
    {
        parse_attributes(input, true)
    }
}

/// Where the traits directive is not accepted, a successful parse never
/// yields capability paths.
pub proof fn lemma_no_traits_when_disallowed(s: Seq<char>, i: int)
    requires
        0 <= i <= s.len(),
        spec_parse_entries(s, i, false) is Some,
    ensures
        spec_parse_entries(s, i, false)->0.traits.len() == 0,
    decreases s.len() - i,
{
    lemma_parse_entry_bounds(s, i);
    let e = spec_parse_entry(s, i, false)->0;
    let j = e.1;
    if skip_ws(s, j) == s.len() {
    } else {
        let k = spec_parse_punct(s, j, ',')->0;
        if skip_ws(s, k) == s.len() {
        } else {
            lemma_no_traits_when_disallowed(s, k);
        }
    }
}

} // verus!
