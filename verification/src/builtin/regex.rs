//! Regular expressions for build scripts (`re.matches`, `re.replace`,
//! `re.replace_all`), backed by `fancy_regex`.

use vstd::prelude::*;
use vstd::string::*;
use crate::registry::Builtin;

verus! {

#[verifier::external_type_specification]
#[verifier::external_body]
pub struct ExRegex(fancy_regex::Regex);

/// Whether `fancy_regex` accepts a pattern.
pub uninterp spec fn regex_compiles(pattern: Seq<char>) -> bool;

/// The text (`Display`) of the error that `fancy_regex` reports for a
/// pattern it refuses.
pub uninterp spec fn regex_compile_error(pattern: Seq<char>) -> Seq<char>;

/// What `fancy_regex` finds in `text` for a pattern: for each successive
/// non-overlapping match, every group in order (group 0 is the whole
/// match), `None` for a group that took no part; `None` as a whole when
/// the search fails at run time (such as when it exceeds the backtracking
/// limit).
pub uninterp spec fn regex_captures(pattern: Seq<char>, text: Seq<char>) -> Option<
    Seq<Seq<Option<Seq<char>>>>,
>;

/// What `fancy_regex` makes of `text` when it replaces the first `limit`
/// matches of a pattern (all of them when `limit` is 0) by `rep`, with `$`
/// group references in `rep` expanded; `None` when the search fails at run
/// time.
pub uninterp spec fn regex_replacen(pattern: Seq<char>, text: Seq<char>, rep: Seq<char>, limit: nat) -> Option<Seq<char>>;

/// A compiled regular expression together with the pattern it was compiled
/// from.
pub struct Pattern {
    source: String,
    regex: fancy_regex::Regex,
}

impl Pattern {
    /// The pattern the expression was compiled from.
    pub closed spec fn source(&self) -> Seq<char> {
        self.source@
    }
}

/// `fancy_regex::Regex::new`: compiles `pattern`; the `Pattern` keeps the
/// pattern text beside the compiled expression, and a refused pattern gives
/// the text of the error.
#[verifier::external_body]
fn regex_new(pattern: &str) -> (res: Result<Pattern, String>)
    ensures
        res is Ok <==> regex_compiles(pattern@),
        res matches Ok(p) ==> p.source() == pattern@,
        res matches Err(t) ==> t@ == regex_compile_error(pattern@),
{
    fancy_regex::Regex::new(pattern).map(|regex| Pattern { source: pattern.to_string(), regex }).map_err(
        |e| e.to_string(),
    )
}

/// `fancy_regex::Regex::captures_iter`, every item collected, each group as
/// text; stops with the error text at the first failing search.
#[verifier::external_body]
fn regex_captures_all(p: &Pattern, text: &str) -> (res: Result<Vec<Vec<Option<String>>>, String>)
    ensures
        res is Ok <==> regex_captures(p.source(), text@) is Some,
        res matches Ok(v) ==> Some(v.deep_view()) == regex_captures(p.source(), text@),
{
    p.regex.captures_iter(text).map(
        |c| c.map(|caps| caps.iter().map(|m| m.map(|m| m.as_str().to_string())).collect()),
    ).collect::<Result<Vec<Vec<Option<String>>>, fancy_regex::Error>>().map_err(|e| e.to_string())
}

/// `fancy_regex::Regex::try_replacen`, the fallible form of `replace`
/// (`limit` 1) and `replace_all` (`limit` 0).
#[verifier::external_body]
fn regex_try_replacen(p: &Pattern, text: &str, limit: usize, rep: &str) -> (res: Result<String, String>)
    ensures
        res is Ok <==> regex_replacen(p.source(), text@, rep@, limit as nat) is Some,
        res matches Ok(s) ==> Some(s@) == regex_replacen(p.source(), text@, rep@, limit as nat),
{
    p.regex.try_replacen(text, limit, rep).map(|s| s.into_owned()).map_err(|e| e.to_string())
}

/// Errors of the regular-expression builtins.
#[derive(Debug)]
pub enum RegexError {
    /// The pattern does not compile; the message says why.
    Compile { message: String },
    /// The search failed while it ran.
    Runtime { message: String },
}

/// The groups of one match that took part in it, in order.
pub open spec fn matched_groups(groups: Seq<Option<Seq<char>>>) -> Seq<Seq<char>>
    decreases groups.len(),
{
    if groups.len() == 0 {
        seq![]
    } else {
        let rest = matched_groups(groups.drop_last());
        match groups.last() {
            Some(g) => rest.push(g),
            None => rest,
        }
    }
}

/// The groups of a match that are kept are exactly those that took part,
/// in order, each with its text as matched, empty text included: the
/// `Some` entries of the groups with their contents. A group that matched
/// the empty string adds an empty entry.
pub proof fn lemma_matched_groups_keep_every_participant(groups: Seq<Option<Seq<char>>>)
    ensures
        matched_groups(groups) == groups.filter_map(|o: Option<Seq<char>>| o),
        matched_groups(groups.push(Some(Seq::<char>::empty()))) == matched_groups(groups).push(
            Seq::<char>::empty(),
        ),
        matched_groups(groups.push(None)) == matched_groups(groups),
    decreases groups.len(),
{
    assert(groups.push(Some(Seq::<char>::empty())).drop_last() =~= groups);
    assert(groups.push(None).drop_last() =~= groups);
    if groups.len() > 0 {
        lemma_matched_groups_keep_every_participant(groups.drop_last());
        match groups.last() {
            Some(g) => {
                assert(groups.drop_last().filter_map(|o: Option<Seq<char>>| o) + seq![g]
                    =~= groups.drop_last().filter_map(|o: Option<Seq<char>>| o).push(g));
            },
            None => {},
        }
    } else {
        assert(groups.filter_map(|o: Option<Seq<char>>| o) =~= Seq::<Seq<char>>::empty());
    }
}

/// The prefix of the message of a pattern that does not compile.
pub open spec fn compile_message_prefix() -> Seq<char> {
    "Could not compile regex pattern: "@
}

/// The error for a pattern that does not compile: the fixed prefix, then
/// what `fancy_regex` says of the pattern.
pub open spec fn is_compile_error(e: RegexError, pattern: Seq<char>) -> bool {
    match e {
        RegexError::Compile { message } => message@ == compile_message_prefix() + regex_compile_error(pattern),
        _ => false,
    }
}

fn compile(patt: &str) -> (res: Result<Pattern, RegexError>)
    ensures
        res is Ok <==> regex_compiles(patt@),
        res matches Ok(p) ==> p.source() == patt@,
        res matches Err(e) ==> is_compile_error(e, patt@),
{
    match regex_new(patt) {
        Ok(p) => Ok(p),
        Err(text) => {
            let mut message = "Could not compile regex pattern: ".to_owned();
            message.append(text.as_str());
            Err(RegexError::Compile { message })
        },
    }
}

fn keep_matched(groups: &Vec<Option<String>>) -> (res: Vec<String>)
    ensures
        res.deep_view() == matched_groups(groups.deep_view()),
{
    let mut res: Vec<String> = Vec::new();
    let mut i: usize = 0;
    while i < groups.len()
        invariant
            i <= groups.len(),
            res.deep_view() == matched_groups(groups.deep_view().subrange(0, i as int)),
        decreases groups.len() - i,
    {
        let ghost pre = groups.deep_view().subrange(0, i as int);
        let ghost next = groups.deep_view().subrange(0, i + 1);
        assert(next.drop_last() =~= pre);
        assert(next.last() == groups[i as int].deep_view());
        let ghost before = res.deep_view();
        match &groups[i] {
            Some(g) => {
                res.push(g.clone());
                assert(res.deep_view() =~= before.push(g@));
            },
            None => {},
        }
        i = i + 1;
    }
    assert(groups.deep_view().subrange(0, groups.len() as int) =~= groups.deep_view());
    res
}

/// All matches of `patt` in `src`: for each match, the text of each of its
/// groups that took part, group 0 (the whole match) first.
pub fn rmatch(src: &str, patt: &str) -> (res: Result<Vec<Vec<String>>, RegexError>)
    ensures
        !regex_compiles(patt@) ==> (res matches Err(e) && is_compile_error(e, patt@)),
        regex_compiles(patt@) ==> match regex_captures(patt@, src@) {
            None => res matches Err(RegexError::Runtime { .. }),
            Some(ms) => res matches Ok(v) && v.deep_view() == ms.map_values(
                |m: Seq<Option<Seq<char>>>| matched_groups(m),
            ),
        },
{
    let p = compile(patt)?;
    let caps = match regex_captures_all(&p, src) {
        Ok(c) => c,
        Err(message) => return Err(RegexError::Runtime { message }),
    };
    let ghost ms = caps.deep_view();
    let mut res: Vec<Vec<String>> = Vec::new();
    let mut i: usize = 0;
    while i < caps.len()
        invariant
            i <= caps.len(),
            ms == caps.deep_view(),
            res.deep_view() =~= ms.subrange(0, i as int).map_values(
                |m: Seq<Option<Seq<char>>>| matched_groups(m),
            ),
        decreases caps.len() - i,
    {
        let groups = keep_matched(&caps[i]);
        let ghost before = res.deep_view();
        res.push(groups);
        assert(res.deep_view() =~= before.push(matched_groups(ms[i as int])));
        assert(ms.subrange(0, i + 1).map_values(|m: Seq<Option<Seq<char>>>| matched_groups(m))
            =~= ms.subrange(0, i as int).map_values(|m: Seq<Option<Seq<char>>>| matched_groups(m)).push(
            matched_groups(ms[i as int]),
        ));
        i = i + 1;
    }
    assert(ms.subrange(0, caps.len() as int) =~= ms);
    Ok(res)
}

fn replace_n(src: &str, patt: &str, rep: &str, limit: usize) -> (res: Result<String, RegexError>)
    ensures
        !regex_compiles(patt@) ==> (res matches Err(e) && is_compile_error(e, patt@)),
        regex_compiles(patt@) ==> match regex_replacen(patt@, src@, rep@, limit as nat) {
            None => res matches Err(RegexError::Runtime { .. }),
            Some(out) => res matches Ok(s) && s@ == out,
        },
{
    let p = compile(patt)?;
    match regex_try_replacen(&p, src, limit, rep) {
        Ok(s) => Ok(s),
        Err(message) => Err(RegexError::Runtime { message }),
    }
}

/// Replaces every match of `patt` in `src` by `rep`.
pub fn replace_all(src: &str, patt: &str, rep: &str) -> (res: Result<String, RegexError>)
    ensures
        !regex_compiles(patt@) ==> (res matches Err(e) && is_compile_error(e, patt@)),
        regex_compiles(patt@) ==> match regex_replacen(patt@, src@, rep@, 0) {
            None => res matches Err(RegexError::Runtime { .. }),
            Some(out) => res matches Ok(s) && s@ == out,
        },
{
    replace_n(src, patt, rep, 0)
}

/// Replaces the first match of `patt` in `src` by `rep`.
pub fn replace(src: &str, patt: &str, rep: &str) -> (res: Result<String, RegexError>)
    ensures
        !regex_compiles(patt@) ==> (res matches Err(e) && is_compile_error(e, patt@)),
        regex_compiles(patt@) ==> match regex_replacen(patt@, src@, rep@, 1) {
            None => res matches Err(RegexError::Runtime { .. }),
            Some(out) => res matches Ok(s) && s@ == out,
        },
{
    replace_n(src, patt, rep, 1)
}

/// The builtins of this module, in the order they are bound.
pub fn register() -> (res: Vec<Builtin>)
    ensures
        res@ == seq![Builtin::ReMatches, Builtin::ReReplaceAll, Builtin::ReReplace, Builtin::Re],
{
    vec![Builtin::ReMatches, Builtin::ReReplaceAll, Builtin::ReReplace, Builtin::Re]
}

} // verus!
