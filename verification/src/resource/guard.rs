//! Token validation guard with path-based routing.
//!
//! [`Guard`] matches request paths against registered [`Rule`]s and decides,
//! from what the validator reports of a request, whether it is forwarded or
//! denied with RFC 6750 challenges.

use std::sync::Arc;

use vstd::prelude::*;

use crate::resource::challenge::{
    challenge_count, challenge_values, challenges, metadata_members, metadata_value, opt_failure,
    schemes_offered, FailureClass, FailureCode, FailureView, MetadataView, ResourceMetadata, TokenFailure,
};
use crate::json::{insert_strings, json_text, value_bytes, with_member, Json};
use crate::resource::error::{insert_error_repr, ConfigError};
use crate::resource::outcome::Outcome;
use crate::resource::rule::{CheckError, Rule, TokenRequirement};
use crate::resource::scopes::HasScopes;
use crate::resource::uri::{client_uri, request_uri};
use crate::resource::validator::{ValidatedRequest, ValidationResult};
use crate::text::{
    cat, cat3, chars_of, lemma_precedes_total, lemma_precedes_transitive, list_repr, list_text,
    opt_repr, opt_str, opt_text, precedes, quoted_opt, same, text_precedes, texts,
};
use crate::uri::{Uri, UriView};

verus! {

// ── Routing ──────────────────────────────────────────────────────────────────

/// `matchit::Router`, a path router.
#[verifier::external_type_specification]
#[verifier::external_body]
#[verifier::reject_recursive_types(T)]
pub struct ExRouter<T>(matchit::Router<T>);

/// The routes of a router, in the order in which they were inserted: the
/// pattern and the value.
pub uninterp spec fn route_table(router: matchit::Router<usize>) -> Seq<(Seq<char>, usize)>;

/// Why a router with the given routes refuses another pattern, if it does.
pub uninterp spec fn route_refusal(
    table: Seq<(Seq<char>, usize)>,
    pattern: Seq<char>,
) -> Option<Seq<char>>;

/// The value of the route that a path matches.
pub uninterp spec fn route_match(table: Seq<(Seq<char>, usize)>, path: Seq<char>) -> Option<usize>;

/// No routes.
pub open spec fn no_routes() -> Seq<(Seq<char>, usize)> {
    Seq::empty()
}

/// A pattern that stands for itself: not empty and without braces.
pub open spec fn literal_pattern(s: Seq<char>) -> bool {
    s.len() > 0 && !s.contains('{') && !s.contains('}')
}

/// How many parameters one pattern may have.
pub const MAX_PARAMETERS: usize = 25;

/// Whether `s` holds `c` at `i`.
pub open spec fn stands_at(s: Seq<char>, i: int, c: char) -> bool {
    0 <= i < s.len() && s[i] == c
}

/// A doubled brace stands at `i`.
pub open spec fn doubled(pattern: Seq<char>, i: int) -> bool {
    &&& stands_at(pattern, i, '{') || stands_at(pattern, i, '}')
    &&& stands_at(pattern, i + 1, pattern[i])
}

/// Where the parameter whose name goes on at `i` is closed. A doubled brace
/// belongs to the name; `*` and `/` do not.
pub open spec fn name_end(pattern: Seq<char>, i: int) -> Option<int>
    decreases pattern.len() - i,
{
    if !(0 <= i < pattern.len()) || pattern[i] == '*' || pattern[i] == '/' {
        None
    } else if doubled(pattern, i) {
        name_end(pattern, i + 2)
    } else if pattern[i] == '}' {
        Some(i)
    } else {
        name_end(pattern, i + 1)
    }
}

/// Where the parameter that begins at `i` is closed, if it is well formed: its
/// name is not empty, and not `*` alone.
pub open spec fn parameter_end(pattern: Seq<char>, i: int) -> Option<int> {
    if stands_at(pattern, i + 1, '}') {
        None
    } else {
        match name_end(pattern, i + 2) {
            Some(end) => if pattern[end - 1] == '*' {
                None
            } else {
                Some(end)
            },
            None => None,
        }
    }
}

/// A name is closed at or behind the place where it goes on.
pub proof fn lemma_name_end(pattern: Seq<char>, i: int)
    ensures
        name_end(pattern, i) matches Some(end) ==> i <= end < pattern.len(),
    decreases pattern.len() - i,
{
    if 0 <= i < pattern.len() {
        lemma_name_end(pattern, i + 1);
        if i + 2 <= pattern.len() {
            lemma_name_end(pattern, i + 2);
        }
    }
}

/// How many parameters can begin in `pattern` from `i` on, where a doubled brace
/// directly behind a closing one may be taken for a single one.
pub open spec fn openings(pattern: Seq<char>, i: int) -> nat
    decreases pattern.len() - i,
{
    if !(0 <= i < pattern.len()) {
        0
    } else if doubled(pattern, i) {
        openings(pattern, i + 2) + if pattern[i] == '{' && stands_at(pattern, i - 1, '}')
            && !stands_at(pattern, i + 2, '*') {
            1nat
        } else {
            0nat
        }
    } else {
        openings(pattern, i + 1) + if pattern[i] == '{' && !stands_at(pattern, i + 1, '*') {
            1nat
        } else {
            0nat
        }
    }
}

/// How many parameters `pattern` has from `i` on, up to the first brace that
/// makes it malformed. The catch-all is not counted. Behind a parameter whose
/// name is longer than one byte, a doubled brace may be taken for a single one;
/// from there on every opening counts.
pub open spec fn parameters(pattern: Seq<char>, i: int) -> nat
    decreases pattern.len() - i,
{
    if !(0 <= i < pattern.len()) {
        0
    } else if doubled(pattern, i) {
        parameters(pattern, i + 2)
    } else if pattern[i] == '}' {
        0
    } else if pattern[i] != '{' {
        parameters(pattern, i + 1)
    } else {
        proof {
            lemma_name_end(pattern, i + 2);
        }
        match parameter_end(pattern, i) {
            None => 0,
            Some(end) => if pattern[i + 1] == '*' {
                parameters(pattern, end + 1)
            } else if doubled(pattern, end + 1) && !short_name(pattern, i, end) {
                1 + openings(pattern, end + 1)
            } else {
                1 + parameters(pattern, end + 1)
            },
        }
    }
}

/// The name between `i` and `end` is one byte long.
pub open spec fn short_name(pattern: Seq<char>, i: int, end: int) -> bool {
    end == i + 2 && pattern[i + 1] <= '\u{7f}'
}

/// A pattern that can be given to a router: one with no more parameters than a
/// pattern may have.
pub open spec fn routable(pattern: Seq<char>) -> bool {
    parameters(pattern, 0) <= MAX_PARAMETERS
}

/// Whether `chars` holds `c` at `i`.
fn has_at(chars: &Vec<char>, i: usize, c: char) -> (r: bool)
    ensures
        r == stands_at(chars@, i as int, c),
{
    i < chars.len() && chars[i] == c
}

/// Whether a doubled brace stands at `i`.
fn is_doubled(chars: &Vec<char>, i: usize) -> (r: bool)
    ensures
        r == doubled(chars@, i as int),
{
    i < chars.len() && (chars[i] == '{' || chars[i] == '}') && i + 1 < chars.len() && chars[i + 1]
        == chars[i]
}

/// Where the parameter whose name goes on at `start` is closed.
fn find_name_end(chars: &Vec<char>, start: usize) -> (r: Option<usize>)
    ensures
        match r {
            Some(end) => name_end(chars@, start as int) == Some(end as int),
            None => name_end(chars@, start as int) is None,
        },
{
    let mut i: usize = start;
    while i < chars.len()
        invariant
            name_end(chars@, start as int) == name_end(chars@, i as int),
        decreases chars@.len() - i,
    {
        if chars[i] == '*' || chars[i] == '/' {
            return None;
        }
        if is_doubled(chars, i) {
            i = i + 2;
        } else if chars[i] == '}' {
            return Some(i);
        } else {
            i = i + 1;
        }
    }
    None
}

/// Where the parameter that begins at `i` is closed, if it is well formed.
fn find_parameter_end(chars: &Vec<char>, i: usize) -> (r: Option<usize>)
    requires
        i < chars@.len(),
    ensures
        match r {
            Some(end) => parameter_end(chars@, i as int) == Some(end as int) && i + 2 <= end
                < chars@.len(),
            None => parameter_end(chars@, i as int) is None,
        },
{
    proof {
        lemma_name_end(chars@, i + 2);
    }
    let last: usize = chars.len() - 1;
    if i == last || chars[i + 1] == '}' {
        return None;
    }
    match find_name_end(chars, i + 2) {
        Some(end) => if chars[end - 1] == '*' {
            None
        } else {
            Some(end)
        },
        None => None,
    }
}

/// How many parameters can begin from `start` on.
fn count_openings(chars: &Vec<char>, start: usize) -> (r: usize)
    requires
        start <= chars@.len(),
    ensures
        r == openings(chars@, start as int),
        r <= chars@.len() - start,
{
    let mut count: usize = 0;
    let mut i: usize = start;
    while i < chars.len()
        invariant
            start <= i <= chars@.len(),
            count <= i - start,
            count + openings(chars@, i as int) == openings(chars@, start as int),
        decreases chars@.len() - i,
    {
        if is_doubled(chars, i) {
            let behind = i > 0 && chars[i - 1] == '}';
            if chars[i] == '{' && behind && !(i + 2 < chars.len() && chars[i + 2] == '*') {
                count = count + 1;
            }
            i = i + 2;
        } else {
            if chars[i] == '{' && !has_at(chars, i + 1, '*') {
                count = count + 1;
            }
            i = i + 1;
        }
    }
    count
}

/// Whether a pattern can be given to a router.
pub fn is_routable(pattern: &str) -> (r: bool)
    ensures
        r == routable(pattern@),
{
    let chars = chars_of(pattern);
    let mut count: usize = 0;
    let mut i: usize = 0;
    while i < chars.len()
        invariant
            i <= chars@.len(),
            count <= i,
            chars@ == pattern@,
            count + parameters(chars@, i as int) == parameters(chars@, 0),
        decreases chars@.len() - i,
    {
        if is_doubled(&chars, i) {
            i = i + 2;
        } else if chars[i] == '}' {
            return count <= MAX_PARAMETERS;
        } else if chars[i] != '{' {
            i = i + 1;
        } else {
            match find_parameter_end(&chars, i) {
                None => return count <= MAX_PARAMETERS,
                Some(end) => {
                    let short = end == i + 2 && chars[i + 1] <= '\u{7f}';
                    if chars[i + 1] == '*' {
                        i = end + 1;
                    } else if is_doubled(&chars, end + 1) && !short {
                        let more: usize = count_openings(&chars, end + 1);
                        return count + 1 + more <= MAX_PARAMETERS;
                    } else {
                        count = count + 1;
                        i = end + 1;
                    }
                },
            }
        }
    }
    count <= MAX_PARAMETERS
}

/// A router without routes.
///
/// Trusted: `matchit::Router::new`.
#[verifier::external_body]
fn new_router() -> (r: matchit::Router<usize>)
    ensures
        route_table(r) == no_routes(),
{
    matchit::Router::new()
}

/// Inserts a route.
///
/// Trusted: `matchit::Router::insert` adds the route, or refuses the pattern;
/// whether it does, and what the error says, depends on the pattern and the
/// routes that are there. It panics on the twenty-sixth parameter of a pattern,
/// catch-alls not counted, unless it finds the pattern malformed before; giving
/// a parameter a name of another length, it loses track of a doubled brace
/// directly behind it.
#[verifier::external_body]
fn insert_route(router: &mut matchit::Router<usize>, pattern: &str, value: usize) -> (r: Result<
    (),
    matchit::InsertError,
>)
    requires
        routable(pattern@),
    ensures
        r is Ok == (route_refusal(route_table(*old(router)), pattern@) is None),
        r matches Err(e) ==> route_refusal(route_table(*old(router)), pattern@) == Some(
            insert_error_repr(e),
        ),
        r is Ok ==> route_table(*final(router)) == route_table(*old(router)).push(
            (pattern@, value),
        ),
{
    router.insert(pattern, value)
}

/// The value of the route that a path matches.
///
/// Trusted: `matchit::Router::at`. What it finds depends on the path and the
/// routes, and is the value of one of them; a route without parameters takes
/// precedence on the path that it spells out.
#[verifier::external_body]
fn find_route(router: &matchit::Router<usize>, path: &str) -> (r: Option<usize>)
    ensures
        r == route_match(route_table(*router), path@),
        r is Some ==> exists|i: int|
            0 <= i < route_table(*router).len() && (#[trigger] route_table(*router)[i]).1 == r->0,
        forall|i: int|
            0 <= i < route_table(*router).len() && literal_pattern(path@) && (
            #[trigger] route_table(*router)[i]).0 == path@ ==> r == Some(route_table(*router)[i].1),
{
    router.at(path).ok().map(|m| *m.value)
}

/// The routing table of a list of patterns: each leads to its own index.
pub open spec fn table_of(patterns: Seq<Seq<char>>) -> Seq<(Seq<char>, usize)> {
    Seq::new(patterns.len(), |i: int| (patterns[i], i as usize))
}

/// Why the router that holds the patterns before it refuses a pattern, if it
/// does.
pub open spec fn refusal_at(patterns: Seq<Seq<char>>, i: int) -> Option<Seq<char>> {
    route_refusal(table_of(patterns.take(i)), patterns[i])
}

/// The first `n` patterns are taken by a router, each after those before it.
pub open spec fn accepted(patterns: Seq<Seq<char>>, n: int) -> bool {
    forall|i: int| 0 <= i < n ==> (#[trigger] refusal_at(patterns, i)) is None
}

/// The error says why the first pattern that is refused is refused.
pub open spec fn first_refusal(patterns: Seq<Seq<char>>, e: matchit::InsertError) -> bool {
    exists|i: int|
        {
            &&& 0 <= i < patterns.len()
            &&& accepted(patterns, i)
            &&& #[trigger] refusal_at(patterns, i) == Some(insert_error_repr(e))
        }
}

/// The patterns of a list of routes.
pub open spec fn patterns_of<C>(routes: Seq<(String, Rule<C>)>) -> Seq<Seq<char>> {
    routes.map_values(|r: (String, Rule<C>)| r.0@)
}

// ── The guard ────────────────────────────────────────────────────────────────

/// A guard that decides on access tokens by path-based rules.
#[verifier::reject_recursive_types(C)]
pub struct Guard<C> {
    metadata: ResourceMetadata,
    router: matchit::Router<usize>,
    routes: Vec<(String, Rule<C>)>,
    default: Rule<C>,
    scopes_supported: Vec<String>,
    base_uri: Option<Uri>,
    strip_prefix: Option<String>,
}

/// A public rule with constraints, which could never be enforced because the
/// validator is not called for public routes.
pub open spec fn unenforceable<C>(rule: Rule<C>) -> bool {
    rule.token is Public && (rule.audiences@.len() > 0 || rule.scopes@.len() > 0)
}

/// `s` is a scope of one of the routes or of the default rule.
pub open spec fn is_required_scope<C>(
    routes: Seq<(String, Rule<C>)>,
    default: Rule<C>,
    s: Seq<char>,
) -> bool {
    ||| exists|i: int| 0 <= i < routes.len() && texts((#[trigger] routes[i]).1.scopes@).contains(s)
    ||| texts(default.scopes@).contains(s)
}

/// Strictly ascending in the order of texts.
pub open spec fn ascending(v: Seq<Seq<char>>) -> bool {
    forall|i: int, j: int| 0 <= i < j < v.len() ==> precedes(#[trigger] v[i], #[trigger] v[j])
}

/// Whether a rule is public and has constraints.
fn is_unenforceable<C>(rule: &Rule<C>) -> (r: bool)
    ensures
        r == unenforceable(*rule),
{
    match rule.token {
        TokenRequirement::Public => rule.audiences.len() > 0 || rule.scopes.len() > 0,
        _ => false,
    }
}

/// Adds a text to an ascending list, unless it is there.
fn insert_ascending(list: &mut Vec<String>, s: &String)
    requires
        ascending(texts(old(list)@)),
    ensures
        ascending(texts(final(list)@)),
        forall|t: Seq<char>| #[trigger]
            texts(final(list)@).contains(t) <==> texts(old(list)@).contains(t) || t == s@,
{
    let ghost before = list@;
    let mut i: usize = 0;
    while i < list.len() && text_precedes(list[i].as_str(), s.as_str())
        invariant
            i <= list@.len(),
            list@ == before,
            forall|k: int| 0 <= k < i ==> precedes(#[trigger] texts(before)[k], s@),
        decreases list@.len() - i,
    {
        assert(texts(before)[i as int] == before[i as int]@);
        i = i + 1;
    }
    if i < list.len() && same(list[i].as_str(), s.as_str()) {
        proof {
            assert(texts(before)[i as int] == s@);
        }
        return;
    }
    let copy = s.clone();
    list.insert(i, copy);
    proof {
        let old_texts = texts(before);
        let new_texts = texts(list@);
        assert(new_texts == old_texts.insert(i as int, s@));
        if i < before.len() {
            lemma_precedes_total(old_texts[i as int], s@);
        }
        assert forall|a: int, b: int| 0 <= a < b < new_texts.len() implies precedes(
            #[trigger] new_texts[a],
            #[trigger] new_texts[b],
        ) by {
            if b < i {
                assert(new_texts[a] == old_texts[a] && new_texts[b] == old_texts[b]);
            } else if b == i {
                assert(new_texts[a] == old_texts[a]);
            } else if a < i {
                assert(new_texts[a] == old_texts[a] && new_texts[b] == old_texts[b - 1]);
            } else if a == i {
                assert(new_texts[b] == old_texts[b - 1]);
                if b - 1 > i {
                    assert(precedes(old_texts[i as int], old_texts[b - 1]));
                    lemma_precedes_transitive(s@, old_texts[i as int], old_texts[b - 1]);
                }
            } else {
                assert(new_texts[a] == old_texts[a - 1] && new_texts[b] == old_texts[b - 1]);
            }
        }
        assert forall|t: Seq<char>| #[trigger] new_texts.contains(t) <==> old_texts.contains(t) || t
            == s@ by {
            if new_texts.contains(t) {
                let k = choose|k: int| 0 <= k < new_texts.len() && new_texts[k] == t;
                if k < i {
                    assert(old_texts[k] == t);
                } else if k > i {
                    assert(old_texts[k - 1] == t);
                }
            }
            if old_texts.contains(t) {
                let k = choose|k: int| 0 <= k < old_texts.len() && old_texts[k] == t;
                if k < i {
                    assert(new_texts[k] == t);
                } else {
                    assert(new_texts[k + 1] == t);
                }
            }
            if t == s@ {
                assert(new_texts[i as int] == t);
            }
        }
    }
}

/// Adds the texts of a list to an ascending list.
fn insert_all(list: &mut Vec<String>, more: &Vec<String>)
    requires
        ascending(texts(old(list)@)),
    ensures
        ascending(texts(final(list)@)),
        forall|t: Seq<char>| #[trigger]
            texts(final(list)@).contains(t) <==> texts(old(list)@).contains(t) || texts(
                more@,
            ).contains(t),
{
    let ghost before = list@;
    let mut i: usize = 0;
    while i < more.len()
        invariant
            i <= more@.len(),
            ascending(texts(list@)),
            forall|t: Seq<char>| #[trigger]
                texts(list@).contains(t) <==> texts(before).contains(t) || texts(more@).take(
                    i as int,
                ).contains(t),
        decreases more@.len() - i,
    {
        let ghost so_far = texts(more@).take(i as int);
        insert_ascending(list, &more[i]);
        proof {
            assert(texts(more@).take(i + 1) == so_far.push(more@[i as int]@));
            assert forall|t: Seq<char>| #[trigger] texts(list@).contains(t) <==> texts(
                before,
            ).contains(t) || texts(more@).take(i + 1).contains(t) by {
                let next = so_far.push(more@[i as int]@);
                if so_far.contains(t) {
                    let k = choose|k: int| 0 <= k < so_far.len() && so_far[k] == t;
                    assert(next[k] == t);
                }
                if t == more@[i as int]@ {
                    assert(next[so_far.len() as int] == t);
                }
                if next.contains(t) {
                    let k = choose|k: int| 0 <= k < next.len() && next[k] == t;
                    if k < so_far.len() {
                        assert(so_far[k] == t);
                    }
                }
            }
        }
        i = i + 1;
    }
    assert(texts(more@).take(i as int) == texts(more@));
}

/// The scopes of all routes and of the default rule, in ascending order.
fn collect_scopes<C>(routes: &Vec<(String, Rule<C>)>, default: &Rule<C>) -> (r: Vec<String>)
    ensures
        ascending(texts(r@)),
        forall|s: Seq<char>| #[trigger]
            texts(r@).contains(s) <==> is_required_scope(routes@, *default, s),
{
    let mut all: Vec<String> = Vec::new();
    let mut i: usize = 0;
    assert(texts(all@) == Seq::<Seq<char>>::empty());
    while i < routes.len()
        invariant
            i <= routes@.len(),
            ascending(texts(all@)),
            forall|s: Seq<char>| #[trigger]
                texts(all@).contains(s) <==> exists|k: int|
                    0 <= k < i && texts((#[trigger] routes@[k]).1.scopes@).contains(s),
        decreases routes@.len() - i,
    {
        let ghost so_far = texts(all@);
        insert_all(&mut all, &routes[i].1.scopes);
        proof {
            assert forall|s: Seq<char>| #[trigger] texts(all@).contains(s) <==> exists|k: int|
                0 <= k < i + 1 && texts((#[trigger] routes@[k]).1.scopes@).contains(s) by {
                if so_far.contains(s) {
                    let k = choose|k: int|
                        0 <= k < i && texts((#[trigger] routes@[k]).1.scopes@).contains(s);
                    assert(texts(routes@[k].1.scopes@).contains(s));
                }
                if texts(routes@[i as int].1.scopes@).contains(s) {
                    assert(0 <= i < i + 1);
                }
            }
        }
        i = i + 1;
    }
    insert_all(&mut all, &default.scopes);
    all
}

/// Every custom check applies to every token.
pub open spec fn total_rules<C>(routes: Seq<(String, Rule<C>)>, default: Rule<C>) -> bool {
    &&& forall|i: int| 0 <= i < routes.len() ==> (#[trigger] routes[i]).1.total()
    &&& default.total()
}

/// A router would be given a pattern with too many parameters: every rule can be
/// enforced, and such a pattern comes before any that the router refuses.
pub open spec fn overflows<C>(routes: Seq<(String, Rule<C>)>, default: Rule<C>) -> bool {
    &&& enforceable(routes, routes.len() as int)
    &&& !unenforceable(default)
    &&& exists|i: int|
        {
            &&& 0 <= i < routes.len()
            &&& accepted(patterns_of(routes), i)
            &&& !routable(#[trigger] patterns_of(routes)[i])
        }
}

/// The routes and the default rule can be given to a guard: no pattern that a
/// router comes to has too many parameters, and every custom check applies to
/// every token.
pub open spec fn usable<C>(routes: Seq<(String, Rule<C>)>, default: Rule<C>) -> bool {
    total_rules(routes, default) && !overflows(routes, default)
}

/// The first `n` routes have rules that can be enforced.
pub open spec fn enforceable<C>(routes: Seq<(String, Rule<C>)>, n: int) -> bool {
    forall|i: int| 0 <= i < n ==> !unenforceable((#[trigger] routes[i]).1)
}

/// The error reports the first fault of the routes and the default rule. Rules
/// that can never be enforced come first, those of the routes in order and then
/// the default rule; then patterns that the router refuses.
pub open spec fn first_fault<C>(
    routes: Seq<(String, Rule<C>)>,
    default: Rule<C>,
    e: ConfigError,
) -> bool {
    match e {
        ConfigError::PublicRuleWithConstraints(p) => {
            ||| exists|i: int|
                {
                    &&& 0 <= i < routes.len()
                    &&& unenforceable((#[trigger] routes[i]).1)
                    &&& p == routes[i].0
                    &&& enforceable(routes, i)
                }
            ||| enforceable(routes, routes.len() as int) && unenforceable(default) && p@
                == "<default>"@
        },
        ConfigError::Route(e) => {
            &&& enforceable(routes, routes.len() as int)
            &&& !unenforceable(default)
            &&& first_refusal(patterns_of(routes), e)
        },
        ConfigError::Metadata(_) => false,
    }
}

impl<C> Guard<C> {
    /// The routing table leads to the routes, and every check applies to every
    /// token.
    #[verifier::type_invariant]
    spec fn well_formed(&self) -> bool {
        &&& route_table(self.router) == table_of(patterns_of(self.routes@))
        &&& forall|i: int| 0 <= i < self.routes@.len() ==> (#[trigger] self.routes@[i]).1.total()
        &&& self.default.total()
    }

    /// The metadata of the validator.
    pub closed spec fn metadata(&self) -> ResourceMetadata {
        self.metadata
    }

    /// The routes.
    pub closed spec fn routes(&self) -> Seq<(String, Rule<C>)> {
        self.routes@
    }

    /// The rule for paths that match no route.
    pub closed spec fn fallback(&self) -> Rule<C> {
        self.default
    }

    /// The scopes that the rules ask for.
    pub closed spec fn scopes(&self) -> Seq<Seq<char>> {
        texts(self.scopes_supported@)
    }

    /// The resource identifier.
    pub closed spec fn base(&self) -> Option<UriView> {
        match self.base_uri {
            Some(u) => Some(u@),
            None => None,
        }
    }

    /// The path prefix to strip.
    pub closed spec fn prefix(&self) -> Option<Seq<char>> {
        opt_text(self.strip_prefix)
    }

    /// The rule that applies to a path: that of the route that it matches, or
    /// the default rule.
    pub open spec fn rule(&self, path: Seq<char>) -> Rule<C> {
        match route_match(table_of(patterns_of(self.routes())), path) {
            Some(i) => self.routes()[i as int].1,
            None => self.fallback(),
        }
    }

    /// The guard was made of these parts, in which there is no fault.
    pub open spec fn is_made_of(
        &self,
        metadata: ResourceMetadata,
        routes: Seq<(String, Rule<C>)>,
        resource: Option<Uri>,
        strip_prefix: Option<String>,
        default: Rule<C>,
    ) -> bool {
        &&& enforceable(routes, routes.len() as int)
        &&& !unenforceable(default)
        &&& accepted(patterns_of(routes), routes.len() as int)
        &&& self.metadata() == metadata
        &&& self.routes() == routes
        &&& self.fallback() == default
        &&& self.base() == match resource {
            Some(u) => Some(u@),
            None => None,
        }
        &&& self.prefix() == opt_text(strip_prefix)
        &&& ascending(self.scopes())
        &&& forall|s: Seq<char>| #[trigger]
            self.scopes().contains(s) <==> is_required_scope(routes, default, s)
    }

    /// Creates a guard.
    ///
    /// - `metadata` — how the validator is configured
    /// - `routes` — patterns and their rules
    /// - `resource` — the resource identifier
    /// - `strip_prefix` — path prefix to strip from the request path before
    ///   prepending the resource path during DPoP URI reconstruction
    /// - `default` — the rule for paths that match no route
    ///
    /// Public rules with audience or scope constraints are refused, the routes
    /// in order and then the default rule. Then the patterns are inserted in
    /// order, and the first one that is refused is reported.
    pub fn new(
        metadata: ResourceMetadata,
        routes: Vec<(String, Rule<C>)>,
        resource: Option<Uri>,
        strip_prefix: Option<String>,
        default: Rule<C>,
    ) -> (r: Result<Self, ConfigError>)
        requires
            usable(routes@, default),
        ensures
            match r {
                Ok(g) => g.is_made_of(metadata, routes@, resource, strip_prefix, default),
                Err(e) => first_fault(routes@, default, e),
            },
    {
        let mut i: usize = 0;
        while i < routes.len()
            invariant
                i <= routes@.len(),
                forall|k: int| 0 <= k < i ==> !unenforceable((#[trigger] routes@[k]).1),
            decreases routes@.len() - i,
        {
            if is_unenforceable(&routes[i].1) {
                return Err(ConfigError::PublicRuleWithConstraints(routes[i].0.clone()));
            }
            i = i + 1;
        }
        if is_unenforceable(&default) {
            return Err(ConfigError::PublicRuleWithConstraints("<default>".to_owned()));
        }
        let scopes_supported = collect_scopes(&routes, &default);
        let ghost patterns = patterns_of(routes@);
        let mut router = new_router();
        let mut n: usize = 0;
        assert(table_of(patterns.take(0)) == no_routes());
        while n < routes.len()
            invariant
                n <= routes@.len(),
                patterns == patterns_of(routes@),
                route_table(router) == table_of(patterns.take(n as int)),
                accepted(patterns, n as int),
                usable(routes@, default),
                forall|k: int| 0 <= k < routes@.len() ==> !unenforceable((#[trigger] routes@[k]).1),
                !unenforceable(default),
            decreases routes@.len() - n,
        {
            proof {
                assert(patterns[n as int] == routes@[n as int].0@);
                assert(routable(patterns_of(routes@)[n as int]));
                assert(table_of(patterns.take(n as int)).push((patterns[n as int], n)) == table_of(
                    patterns.take(n + 1),
                ));
            }
            match insert_route(&mut router, routes[n].0.as_str(), n) {
                Ok(()) => {},
                Err(e) => {
                    assert(refusal_at(patterns, n as int) == Some(insert_error_repr(e)));
                    return Err(ConfigError::from(e));
                },
            }
            n = n + 1;
        }
        assert(patterns.take(n as int) == patterns);
        Ok(
            Guard {
                metadata,
                router,
                routes,
                default,
                scopes_supported,
                base_uri: resource,
                strip_prefix,
            },
        )
    }

    /// The guard as shown in logs, without its routes.
    pub open spec fn description(&self) -> Seq<char> {
        "Guard { scopes_supported: "@ + list_repr(self.scopes()) + ", base_uri: "@ + (
        match self.base() {
            Some(u) => "Some("@ + u.text() + ")"@,
            None => "None"@,
        }) + ", strip_prefix: "@ + opt_repr(self.prefix()) + ", .. }"@
    }

    /// The guard as shown in logs, without its routes.
    pub fn describe(&self) -> (r: String)
        ensures
            r@ == self.description(),
    {
        let scopes = list_text(&self.scopes_supported);
        let base = match &self.base_uri {
            Some(u) => {
                let text = u.text();
                cat3("Some(", text.as_str(), ")")
            },
            None => "None".to_owned(),
        };
        let prefix = quoted_opt(&self.strip_prefix);
        let mut out = "Guard { scopes_supported: ".to_owned();
        out.append(scopes.as_str());
        out.append(", base_uri: ");
        out.append(base.as_str());
        out.append(", strip_prefix: ");
        out.append(prefix.as_str());
        out.append(", .. }");
        out
    }

    /// The rule that applies to a path.
    pub fn rule_for(&self, path: &str) -> (r: &Rule<C>)
        ensures
            *r == self.rule(path@),
            r.total(),
            self.routes().len() == 0 ==> *r == self.fallback(),
            forall|i: int|
                0 <= i < self.routes().len() && literal_pattern(path@) && (
                #[trigger] self.routes()[i]).0@ == path@ ==> *r == self.routes()[i].1,
    {
        proof {
            use_type_invariant(self);
        }
        let count: usize = self.routes.len();
        let found = find_route(&self.router, path);
        proof {
            assert forall|i: int|
                0 <= i < self.routes@.len() && literal_pattern(path@) && (
                #[trigger] self.routes@[i]).0@ == path@ implies found == Some(i as usize) && i
                < count by {
                assert(patterns_of(self.routes@)[i] == path@);
                assert(route_table(self.router)[i] == (path@, i as usize));
            }
        }
        match found {
            Some(i) => {
                assert(i < self.routes@.len());
                assert(self.routes@[i as int].1.total());
                &self.routes[i].1
            },
            None => &self.default,
        }
    }
}

// ── Checking requests ────────────────────────────────────────────────────────

/// The token is meant for one of the audiences of the rule, where it has any.
pub open spec fn audience_matches<C>(rule: Rule<C>, token: ValidatedRequest<C>) -> bool {
    rule.audiences@.len() > 0 ==> exists|a: Seq<char>|
        texts(rule.audiences@).contains(a) && #[trigger] texts(token.audience@).contains(a)
}

/// The token grants every scope of the rule.
pub open spec fn scopes_granted<C: HasScopes>(rule: Rule<C>, token: ValidatedRequest<C>) -> bool {
    forall|i: int| 0 <= i < rule.scopes@.len() ==> token.claims.grants((#[trigger] rule.scopes@[i])@)
}

/// The failure of a token that is meant for another audience.
pub open spec fn wrong_audience() -> FailureView {
    FailureView::client(FailureCode::InvalidToken, "The access token audience does not match"@)
}

/// The failure of a token that lacks a scope.
pub open spec fn missing_scope() -> FailureView {
    FailureView::client(
        FailureCode::InsufficientScope,
        "The access token has insufficient scope for the requested resource"@,
    )
}

/// The failure of a request whose URI cannot be reconstructed.
pub open spec fn bad_uri() -> FailureView {
    FailureView::client(FailureCode::InvalidRequest, "Invalid request URI"@)
}

/// What is done with a request before the validator is called.
pub enum CheckStart<C> {
    /// The request is decided without the validator.
    Decided(Outcome<C>),
    /// The validator is called for this URI.
    Validate(Uri),
}

/// Whether the lists have a text in common.
fn have_common(a: &Vec<String>, b: &Vec<String>) -> (r: bool)
    ensures
        r == exists|s: Seq<char>| texts(a@).contains(s) && #[trigger] texts(b@).contains(s),
{
    let mut i: usize = 0;
    while i < a.len()
        invariant
            i <= a@.len(),
            forall|k: int| 0 <= k < i ==> !texts(b@).contains((#[trigger] a@[k])@),
        decreases a@.len() - i,
    {
        let mut j: usize = 0;
        while j < b.len()
            invariant
                i < a@.len(),
                j <= b@.len(),
                forall|k: int| 0 <= k < j ==> (#[trigger] b@[k])@ != a@[i as int]@,
            decreases b@.len() - j,
        {
            if same(a[i].as_str(), b[j].as_str()) {
                proof {
                    let s = a@[i as int]@;
                    assert(texts(a@)[i as int] == s);
                    assert(texts(b@)[j as int] == s);
                    assert(texts(a@).contains(s) && texts(b@).contains(s));
                }
                return true;
            }
            j = j + 1;
        }
        assert(!texts(b@).contains(a@[i as int]@)) by {
            if texts(b@).contains(a@[i as int]@) {
                let k = choose|k: int| 0 <= k < texts(b@).len() && texts(b@)[k] == a@[i as int]@;
                assert(b@[k]@ == a@[i as int]@);
            }
        }
        i = i + 1;
    }
    proof {
        assert forall|s: Seq<char>| !(texts(a@).contains(s) && #[trigger] texts(b@).contains(s)) by {
            if texts(a@).contains(s) && texts(b@).contains(s) {
                let k = choose|k: int| 0 <= k < texts(a@).len() && texts(a@)[k] == s;
                assert(a@[k]@ == s);
            }
        }
    }
    false
}

/// A copy of an optional string slice.
fn own(o: Option<&str>) -> (r: Option<String>)
    ensures
        opt_text(r) == opt_str(o),
{
    match o {
        Some(s) => Some(s.to_owned()),
        None => None,
    }
}

/// A borrowed optional string.
fn borrow(o: &Option<String>) -> (r: Option<&str>)
    ensures
        opt_str(r) == opt_text(*o),
{
    match o {
        Some(s) => Some(s.as_str()),
        None => None,
    }
}

impl<C> Guard<C> {
    /// The challenges for a failure on a path with the given scopes.
    pub open spec fn challenge(
        &self,
        failure: Option<FailureView>,
        scope: Option<Seq<char>>,
    ) -> Seq<Seq<char>> {
        challenge_values(self.metadata()@, failure, scope)
    }

    /// The denial of a request whose URI cannot be reconstructed.
    pub open spec fn denies_uri(&self, uri: UriView, outcome: Outcome<C>) -> bool {
        outcome.denies(
            400,
            self.challenge(Some(bad_uri()), opt_text(self.rule(uri.path).scope_param)),
            None,
        )
    }

    /// How a request begins: public routes are forwarded without validation, a
    /// request whose URI cannot be reconstructed is denied, and any other
    /// request is validated under its client-facing URI.
    pub open spec fn starts(&self, uri: UriView, start: CheckStart<C>) -> bool {
        let rule = self.rule(uri.path);
        if rule.token is Public {
            &&& start matches CheckStart::Decided(o)
            &&& o.forwards(None, None, rule.strip_credentials)
        } else {
            match client_uri(self.base(), self.prefix(), uri) {
                Some(full) => start matches CheckStart::Validate(u) && u@ == full,
                None => start matches CheckStart::Decided(o) && self.denies_uri(uri, o),
            }
        }
    }

    /// The denial of a token by the audience or the scopes of a rule.
    pub open spec fn refuses(
        &self,
        rule: Rule<C>,
        token: ValidatedRequest<C>,
        nonce: Option<Seq<char>>,
        denial: Option<Outcome<C>>,
    ) -> bool where C: HasScopes {
        if !audience_matches(rule, token) {
            denial is Some && denial->0.denies(
                401,
                self.challenge(Some(wrong_audience()), opt_text(rule.scope_param)),
                nonce,
            )
        } else if !scopes_granted(rule, token) {
            denial is Some && denial->0.denies(
                403,
                self.challenge(Some(missing_scope()), opt_text(rule.scope_param)),
                nonce,
            )
        } else {
            denial is None
        }
    }

    /// The denial by the verdict of a custom check.
    pub open spec fn custom_denial(
        &self,
        verdict: Result<(), CheckError>,
        nonce: Option<Seq<char>>,
        denial: Option<Outcome<C>>,
    ) -> bool {
        match verdict {
            Ok(()) => denial is None,
            Err(CheckError::Forbidden(desc)) => denial is Some && denial->0.denies(
                403,
                self.challenge(
                    Some(FailureView::client(FailureCode::InsufficientScope, desc@)),
                    None,
                ),
                nonce,
            ),
            Err(CheckError::InvalidToken(desc)) => denial is Some && denial->0.denies(
                401,
                self.challenge(Some(FailureView::client(FailureCode::InvalidToken, desc@)), None),
                nonce,
            ),
        }
    }

    /// The denial of a token by a rule whose custom check returns `verdict`:
    /// the audience is checked first, then the scopes, then the custom check.
    pub open spec fn rule_denial(
        &self,
        rule: Rule<C>,
        token: ValidatedRequest<C>,
        verdict: Result<(), CheckError>,
        nonce: Option<Seq<char>>,
        denial: Option<Outcome<C>>,
    ) -> bool where C: HasScopes {
        if !audience_matches(rule, token) || !scopes_granted(rule, token) {
            self.refuses(rule, token, nonce, denial)
        } else {
            self.custom_denial(verdict, nonce, denial)
        }
    }

    /// `verdict` is what the custom check of a rule may say of a token. Without
    /// a check, or where the check is not reached, it is approval.
    pub open spec fn possible_verdict(
        rule: Rule<C>,
        token: ValidatedRequest<C>,
        verdict: Result<(), CheckError>,
    ) -> bool where C: HasScopes {
        match rule.check {
            Some(f) => audience_matches(rule, token) && scopes_granted(rule, token)
                ==> f.may_return(&token, verdict),
            None => verdict is Ok,
        }
    }

    /// The outcome for a request that was validated, where the custom check, if
    /// it is reached, returns `verdict`.
    pub open spec fn decides(
        &self,
        rule: Rule<C>,
        result: ValidationResult<C>,
        verdict: Result<(), CheckError>,
        o: Outcome<C>,
    ) -> bool where C: HasScopes {
        let nonce = opt_text(result.dpop_nonce);
        match result.outcome {
            Err(failure) => o.denies(
                failure.error.status(),
                self.challenge(Some(failure@), opt_text(rule.scope_param)),
                nonce,
            ),
            Ok(None) => if rule.token is Required {
                o.denies(401, self.challenge(None, opt_text(rule.scope_param)), nonce)
            } else {
                o.forwards(None, nonce, rule.strip_credentials)
            },
            Ok(Some(token)) => {
                ||| self.rule_denial(rule, token, verdict, nonce, None) && o.forwards(
                    Some(token),
                    nonce,
                    rule.strip_credentials,
                )
                ||| self.rule_denial(rule, token, verdict, nonce, Some(o))
            },
        }
    }

    /// Denies a request.
    fn deny(
        &self,
        status: u16,
        failure: Option<&TokenFailure>,
        scope: Option<&str>,
        dpop_nonce: Option<String>,
    ) -> (r: Outcome<C>)
        ensures
            r.denies(
                status,
                self.challenge(opt_failure(failure), opt_str(scope)),
                opt_text(dpop_nonce),
            ),
            r->challenges@.len() == challenge_count(self.metadata()@, opt_failure(failure)),
    {
        Outcome::Deny { status, challenges: challenges(&self.metadata, failure, scope), dpop_nonce }
    }

    /// Decides what is done with a request before the validator is called.
    pub fn begin_check(&self, uri: &Uri) -> (r: CheckStart<C>)
        ensures
            self.starts(uri@, r),
            // A request that is denied without asking the validator is challenged.
            r matches CheckStart::Decided(o) ==> (o is Deny ==> o->challenges@.len()
                == schemes_offered(self.metadata()@)),
    {
        let rule = self.rule_for(uri.path.as_str());
        if let TokenRequirement::Public = rule.token {
            return CheckStart::Decided(
                Outcome::Forward {
                    token: None,
                    dpop_nonce: None,
                    strip_credentials: rule.strip_credentials,
                },
            );
        }
        match request_uri(self.base_uri.as_ref(), borrow(&self.strip_prefix), uri) {
            Some(full) => CheckStart::Validate(full),
            None => CheckStart::Decided(self.deny_uri(uri)),
        }
    }

    /// Denies a request whose URI cannot be reconstructed.
    pub fn deny_uri(&self, uri: &Uri) -> (r: Outcome<C>)
        ensures
            self.denies_uri(uri@, r),
            r->challenges@.len() == schemes_offered(self.metadata()@),
    {
        let rule = self.rule_for(uri.path.as_str());
        let failure = TokenFailure::client(
            FailureCode::InvalidRequest,
            "Invalid request URI".to_owned(),
        );
        self.deny(400, Some(&failure), borrow(&rule.scope_param), None)
    }

    /// Runs the audience and scope checks of a rule.
    pub fn check_claims(
        &self,
        rule: &Rule<C>,
        token: &ValidatedRequest<C>,
        dpop_nonce: Option<&str>,
    ) -> (r: Option<Outcome<C>>) where C: HasScopes
        ensures
            self.refuses(*rule, *token, opt_str(dpop_nonce), r),
            r matches Some(o) ==> o is Deny && o->challenges@.len() == schemes_offered(
                self.metadata()@,
            ),
    {
        if rule.audiences.len() > 0 && !have_common(&rule.audiences, &token.audience) {
            let failure = TokenFailure::client(
                FailureCode::InvalidToken,
                "The access token audience does not match".to_owned(),
            );
            return Some(
                self.deny(401, Some(&failure), borrow(&rule.scope_param), own(dpop_nonce)),
            );
        }
        let mut i: usize = 0;
        while i < rule.scopes.len()
            invariant
                i <= rule.scopes@.len(),
                audience_matches(*rule, *token),
                forall|k: int| 0 <= k < i ==> token.claims.grants((#[trigger] rule.scopes@[k])@),
            decreases rule.scopes@.len() - i,
        {
            if !token.claims.has_scope(rule.scopes[i].as_str()) {
                assert(!scopes_granted(*rule, *token));
                let failure = TokenFailure::client(
                    FailureCode::InsufficientScope,
                    "The access token has insufficient scope for the requested resource".to_owned(),
                );
                return Some(
                    self.deny(403, Some(&failure), borrow(&rule.scope_param), own(dpop_nonce)),
                );
            }
            i = i + 1;
        }
        None
    }

    /// Applies the verdict of a custom check.
    pub fn check_verdict(&self, verdict: Result<(), CheckError>, dpop_nonce: Option<&str>) -> (r:
        Option<Outcome<C>>)
        ensures
            self.custom_denial(verdict, opt_str(dpop_nonce), r),
            r matches Some(o) ==> o is Deny && o->challenges@.len() == schemes_offered(
                self.metadata()@,
            ),
    {
        match verdict {
            Ok(()) => None,
            Err(CheckError::Forbidden(desc)) => {
                let failure = TokenFailure::client(FailureCode::InsufficientScope, desc);
                Some(self.deny(403, Some(&failure), None, own(dpop_nonce)))
            },
            Err(CheckError::InvalidToken(desc)) => {
                let failure = TokenFailure::client(FailureCode::InvalidToken, desc);
                Some(self.deny(401, Some(&failure), None, own(dpop_nonce)))
            },
        }
    }

    /// Runs the audience, scope, and custom checks of a rule. Returns a denial
    /// if one fails, `None` if all pass.
    pub fn check_rule(
        &self,
        rule: &Rule<C>,
        token: &ValidatedRequest<C>,
        dpop_nonce: Option<&str>,
    ) -> (r: Option<Outcome<C>>) where C: HasScopes
        requires
            rule.total(),
        ensures
            exists|verdict: Result<(), CheckError>|
                #![trigger Self::possible_verdict(*rule, *token, verdict)]
                Self::possible_verdict(*rule, *token, verdict) && self.rule_denial(
                    *rule,
                    *token,
                    verdict,
                    opt_str(dpop_nonce),
                    r,
                ),
            r matches Some(o) ==> o is Deny && o->challenges@.len() == schemes_offered(
                self.metadata()@,
            ),
    {
        if let Some(o) = self.check_claims(rule, token, dpop_nonce) {
            assert(Self::possible_verdict(*rule, *token, Ok(())));
            return Some(o);
        }
        let verdict: Result<(), CheckError> = match &rule.check {
            Some(f) => f.call(token),
            None => Ok(()),
        };
        assert(Self::possible_verdict(*rule, *token, verdict));
        self.check_verdict(verdict, dpop_nonce)
    }

    /// Decides on a request for which the validator was called.
    pub fn finish_check(&self, uri: &Uri, result: ValidationResult<C>) -> (r: Outcome<C>) where
        C: HasScopes,

        ensures
            exists|verdict: Result<(), CheckError>|
                #![trigger self.decides(self.rule(uri.path@), result, verdict, r)]
                self.decides(self.rule(uri.path@), result, verdict, r) && (result.outcome matches Ok(
                    Some(token),
                ) ==> Self::possible_verdict(self.rule(uri.path@), token, verdict)),
            // A denied request is challenged, unless the server itself failed.
            r is Deny ==> r->challenges@.len() == if result.outcome is Err
                && result.outcome->Err_0.error is Server {
                0
            } else {
                schemes_offered(self.metadata()@)
            },
    {
        let rule = self.rule_for(uri.path.as_str());
        let dpop_nonce = result.dpop_nonce;
        match result.outcome {
            Err(failure) => {
                let status: u16 = failure.error.suggested_status();
                let r = self.deny(status, Some(&failure), borrow(&rule.scope_param), dpop_nonce);
                assert(self.decides(*rule, result, Ok(()), r));
                r
            },
            Ok(None) => {
                let r = match rule.token {
                    TokenRequirement::Required => self.deny(
                        401,
                        None,
                        borrow(&rule.scope_param),
                        dpop_nonce,
                    ),
                    _ => Outcome::Forward {
                        token: None,
                        dpop_nonce,
                        strip_credentials: rule.strip_credentials,
                    },
                };
                assert(self.decides(*rule, result, Ok(()), r));
                r
            },
            Ok(Some(token)) => {
                let denial = self.check_rule(rule, &token, borrow(&dpop_nonce));
                let ghost verdict = choose|verdict: Result<(), CheckError>|
                    #![trigger Self::possible_verdict(*rule, token, verdict)]
                    Self::possible_verdict(*rule, token, verdict) && self.rule_denial(
                        *rule,
                        token,
                        verdict,
                        opt_text(dpop_nonce),
                        denial,
                    );
                match denial {
                    Some(o) => {
                        assert(self.decides(*rule, result, verdict, o));
                        o
                    },
                    None => {
                        let r = Outcome::Forward {
                            token: Some(Arc::new(token)),
                            dpop_nonce,
                            strip_credentials: rule.strip_credentials,
                        };
                        assert(self.decides(*rule, result, verdict, r));
                        r
                    },
                }
            },
        }
    }
}

// ── Resource metadata ────────────────────────────────────────────────────────

/// The well-known path of the resource metadata (RFC 9728 §3.1): the path of
/// the resource identifier stands behind the well-known segment, unless it is
/// `/`.
pub open spec fn well_known_path(base: Option<UriView>) -> Seq<char> {
    "/.well-known/oauth-protected-resource"@ + match base {
        Some(u) => if u.path == "/"@ {
            ""@
        } else {
            u.path
        },
        None => ""@,
    }
}

/// The members of the resource metadata document: the metadata of the
/// validator, and the scopes that the rules ask for, where there are any.
pub open spec fn metadata_document(metadata: MetadataView, scopes: Seq<Seq<char>>) -> Map<
    Seq<char>,
    Json,
> {
    let members = metadata_members(metadata);
    if scopes.len() == 0 {
        members
    } else {
        with_member(Some(members), "scopes_supported"@, Json::Strings(scopes))->0
    }
}

impl<C> Guard<C> {
    /// Returns the well-known path and serialized JSON for RFC 9728 resource
    /// metadata.
    pub fn resource_metadata(&self) -> (r: Result<(String, Vec<u8>), ConfigError>)
        ensures
            r is Ok,
            r matches Ok((path, json)) ==> path@ == well_known_path(self.base()) && json@
                == json_text(metadata_document(self.metadata()@, self.scopes())),
    {
        let suffix = match &self.base_uri {
            Some(u) => if same(u.path.as_str(), "/") {
                ""
            } else {
                u.path.as_str()
            },
            None => "",
        };
        let path = cat("/.well-known/oauth-protected-resource", suffix);
        let mut value = match metadata_value(&self.metadata) {
            Ok(v) => v,
            Err(e) => return Err(ConfigError::from(e)),
        };
        if self.scopes_supported.len() > 0 {
            insert_strings(&mut value, "scopes_supported", &self.scopes_supported);
        }
        match value_bytes(&value) {
            Ok(json) => Ok((path, json)),
            Err(e) => Err(ConfigError::from(e)),
        }
    }
}

// ── Builder ──────────────────────────────────────────────────────────────────

/// Collects the parts of a [`Guard`].
#[verifier::reject_recursive_types(C)]
pub struct GuardBuilder<C> {
    /// The patterns and their rules, in the order in which they were added.
    pub routes: Vec<(String, Rule<C>)>,
    /// The resource identifier.
    pub resource: Option<Uri>,
    /// The path prefix to strip.
    pub strip_prefix: Option<String>,
    /// The rule for paths that match no route.
    pub default: Rule<C>,
}

impl<C> Guard<C> {
    /// A builder without routes, whose default rule requires a token.
    pub fn builder() -> (r: GuardBuilder<C>)
        ensures
            r.routes@.len() == 0,
            r.resource is None,
            r.strip_prefix is None,
            r.default.is_plain(TokenRequirement::Required),
            r.default.total(),
    {
        GuardBuilder {
            routes: Vec::new(),
            resource: None,
            strip_prefix: None,
            default: Rule::required(),
        }
    }
}

impl<C> GuardBuilder<C> {
    /// Adds a route pattern with an associated rule.
    ///
    /// Patterns use `matchit` syntax (e.g. `/users/{id}`, `/public/{*rest}`).
    pub fn route(self, pattern: String, rule: Rule<C>) -> (r: Self)
        ensures
            r.routes@ == self.routes@.push((pattern, rule)),
            r == (GuardBuilder { routes: r.routes, ..self }),
    {
        let mut this = self;
        this.routes.push((pattern, rule));
        this
    }

    /// Sets the resource identifier.
    pub fn resource(self, resource: Uri) -> (r: Self)
        ensures
            r == (GuardBuilder { resource: Some(resource), ..self }),
    {
        let mut this = self;
        this.resource = Some(resource);
        this
    }

    /// Sets the resource identifier, or none.
    pub fn maybe_resource(self, resource: Option<Uri>) -> (r: Self)
        ensures
            r == (GuardBuilder { resource, ..self }),
    {
        let mut this = self;
        this.resource = resource;
        this
    }

    /// Sets the path prefix to strip.
    pub fn strip_prefix(self, strip_prefix: String) -> (r: Self)
        ensures
            r == (GuardBuilder { strip_prefix: Some(strip_prefix), ..self }),
    {
        let mut this = self;
        this.strip_prefix = Some(strip_prefix);
        this
    }

    /// Sets the path prefix to strip, or none.
    pub fn maybe_strip_prefix(self, strip_prefix: Option<String>) -> (r: Self)
        ensures
            r == (GuardBuilder { strip_prefix, ..self }),
    {
        let mut this = self;
        this.strip_prefix = strip_prefix;
        this
    }

    /// Sets the rule for paths that match no route.
    pub fn default(self, rule: Rule<C>) -> (r: Self)
        ensures
            r == (GuardBuilder { default: rule, ..self }),
    {
        let mut this = self;
        this.default = rule;
        this
    }

    /// Whether a router would be given a pattern with too many parameters.
    pub fn has_overlong_pattern(&self) -> (r: bool)
        ensures
            r == overflows(self.routes@, self.default),
    {
        let mut i: usize = 0;
        while i < self.routes.len()
            invariant
                i <= self.routes@.len(),
                enforceable(self.routes@, i as int),
            decreases self.routes@.len() - i,
        {
            if is_unenforceable(&self.routes[i].1) {
                return false;
            }
            i = i + 1;
        }
        if is_unenforceable(&self.default) {
            return false;
        }
        let ghost patterns = patterns_of(self.routes@);
        let mut router = new_router();
        let mut n: usize = 0;
        assert(table_of(patterns.take(0)) == no_routes());
        while n < self.routes.len()
            invariant
                n <= self.routes@.len(),
                patterns == patterns_of(self.routes@),
                route_table(router) == table_of(patterns.take(n as int)),
                accepted(patterns, n as int),
                forall|k: int| 0 <= k < n ==> routable(#[trigger] patterns[k]),
                enforceable(self.routes@, self.routes@.len() as int),
                !unenforceable(self.default),
            decreases self.routes@.len() - n,
        {
            let pattern = self.routes[n].0.as_str();
            assert(patterns[n as int] == pattern@);
            if !is_routable(pattern) {
                return true;
            }
            proof {
                assert(table_of(patterns.take(n as int)).push((patterns[n as int], n)) == table_of(
                    patterns.take(n + 1),
                ));
            }
            if let Err(e) = insert_route(&mut router, pattern, n) {
                assert(refusal_at(patterns, n as int) == Some(insert_error_repr(e)));
                assert forall|k: int| 0 <= k < patterns.len() && accepted(
                    patterns,
                    k,
                ) implies routable(#[trigger] patterns[k]) by {
                    if k > n {
                        assert(refusal_at(patterns, n as int) is None);
                    }
                }
                return false;
            }
            n = n + 1;
        }
        false
    }

    /// Builds the guard, or gives `None` where a router would be given a pattern
    /// with too many parameters; see [`build`](Self::build).
    pub fn try_build(self, metadata: ResourceMetadata) -> (r: Option<
        Result<Guard<C>, ConfigError>,
    >)
        requires
            total_rules(self.routes@, self.default),
        ensures
            r is None == overflows(self.routes@, self.default),
            r matches Some(Ok(g)) ==> g.is_made_of(
                metadata,
                self.routes@,
                self.resource,
                self.strip_prefix,
                self.default,
            ),
            r matches Some(Err(e)) ==> first_fault(self.routes@, self.default, e),
    {
        if self.has_overlong_pattern() {
            None
        } else {
            Some(self.build(metadata))
        }
    }

    /// Builds the guard for a validator with the given metadata; see
    /// [`Guard::new`].
    pub fn build(self, metadata: ResourceMetadata) -> (r: Result<Guard<C>, ConfigError>)
        requires
            usable(self.routes@, self.default),
        ensures
            match r {
                Ok(g) => g.is_made_of(
                    metadata,
                    self.routes@,
                    self.resource,
                    self.strip_prefix,
                    self.default,
                ),
                Err(e) => first_fault(self.routes@, self.default, e),
            },
    {
        Guard::new(metadata, self.routes, self.resource, self.strip_prefix, self.default)
    }
}

// ── Laws ─────────────────────────────────────────────────────────────────────

/// A token that is forwarded satisfies its rule: its audience matches, it
/// grants every scope, and the custom check approved of it.
pub proof fn law_forwarded_token_satisfies_rule<C: HasScopes>(
    guard: Guard<C>,
    rule: Rule<C>,
    result: ValidationResult<C>,
    verdict: Result<(), CheckError>,
    o: Outcome<C>,
)
    requires
        guard.decides(rule, result, verdict, o),
        o is Forward,
        o->token is Some,
    ensures
        result.outcome is Ok,
        result.outcome->Ok_0 == Some(*o->token->0),
        audience_matches(rule, *o->token->0),
        rule.audiences@.len() == 0 || shares_audience(rule, *o->token->0),
        scopes_granted(rule, *o->token->0),
        forall|i: int|
            0 <= i < rule.scopes@.len() ==> (*o->token->0).claims.grants(
                (#[trigger] rule.scopes@[i])@,
            ),
        verdict is Ok,
{
    lemma_audience(rule, result.outcome->Ok_0->0);
}

/// Where a rule requires a token, nothing is forwarded without one.
pub proof fn law_required_rule_forwards_only_with_token<C: HasScopes>(
    guard: Guard<C>,
    rule: Rule<C>,
    result: ValidationResult<C>,
    verdict: Result<(), CheckError>,
    o: Outcome<C>,
)
    requires
        guard.decides(rule, result, verdict, o),
        rule.token is Required,
        o is Forward,
    ensures
        o->token is Some,
{
}

/// A request for a public path is forwarded without asking the validator, and
/// only such a request is.
pub proof fn law_only_public_paths_skip_validation<C>(
    guard: Guard<C>,
    uri: UriView,
    start: CheckStart<C>,
)
    requires
        guard.starts(uri, start),
    ensures
        guard.rule(uri.path).token is Public <==> (start matches CheckStart::Decided(o)
            && o is Forward),
{
}

/// A token that the validator refuses is never forwarded, whatever the rule
/// says.
pub proof fn law_refused_token_is_denied<C: HasScopes>(
    guard: Guard<C>,
    rule: Rule<C>,
    result: ValidationResult<C>,
    verdict: Result<(), CheckError>,
    o: Outcome<C>,
)
    requires
        guard.decides(rule, result, verdict, o),
        result.outcome is Err,
    ensures
        o is Deny,
        o->status == result.outcome->Err_0.error.status(),
{
}

/// The nonce that the validator issued is passed on with every outcome.
pub proof fn law_nonce_is_passed_on<C: HasScopes>(
    guard: Guard<C>,
    rule: Rule<C>,
    result: ValidationResult<C>,
    verdict: Result<(), CheckError>,
    o: Outcome<C>,
)
    requires
        guard.decides(rule, result, verdict, o),
    ensures
        opt_text(
            match o {
                Outcome::Forward { dpop_nonce, .. } => dpop_nonce,
                Outcome::Deny { dpop_nonce, .. } => dpop_nonce,
            },
        ) == opt_text(result.dpop_nonce),
{
}

/// The metadata document lists the scopes of the rules exactly where there are
/// any.
pub proof fn law_metadata_lists_scopes(metadata: MetadataView, scopes: Seq<Seq<char>>)
    ensures
        scopes.len() > 0 ==> metadata_document(metadata, scopes).dom().contains(
            "scopes_supported"@,
        ) && metadata_document(metadata, scopes)["scopes_supported"@] == Json::Strings(scopes),
        scopes.len() == 0 ==> !metadata_document(metadata, scopes).dom().contains(
            "scopes_supported"@,
        ),
{
    reveal_strlit("scopes_supported");
    reveal_strlit("realm");
    reveal_strlit("authorization_servers");
    reveal_strlit("dpop_signing_alg_values_supported");
    reveal_strlit("dpop_bound_access_tokens_required");
    reveal_strlit("resource");
    reveal_strlit("bearer_methods_supported");
    assert("scopes_supported"@.len() == 16);
    assert("realm"@.len() == 5);
    assert("authorization_servers"@.len() == 21);
    assert("dpop_signing_alg_values_supported"@.len() == 33);
    assert("dpop_bound_access_tokens_required"@.len() == 33);
    assert("resource"@.len() == 8);
    assert("bearer_methods_supported"@.len() == 24);
}

/// One of the accepted audiences of a rule is an audience of the token.
pub open spec fn shares_audience<C>(rule: Rule<C>, token: ValidatedRequest<C>) -> bool {
    exists|i: int, j: int|
        0 <= i < rule.audiences@.len() && 0 <= j < token.audience@.len() && (
        #[trigger] rule.audiences@[i])@ == (#[trigger] token.audience@[j])@
}

/// A rule accepts the audience of a token where it names none, or one of those
/// that the token has.
proof fn lemma_audience<C>(rule: Rule<C>, token: ValidatedRequest<C>)
    ensures
        audience_matches(rule, token) <==> rule.audiences@.len() == 0 || shares_audience(
            rule,
            token,
        ),
{
    let a = texts(rule.audiences@);
    let b = texts(token.audience@);
    if rule.audiences@.len() > 0 && audience_matches(rule, token) {
        let s = choose|s: Seq<char>| a.contains(s) && #[trigger] b.contains(s);
        let i = choose|i: int| 0 <= i < a.len() && a[i] == s;
        let j = choose|j: int| 0 <= j < b.len() && b[j] == s;
        assert(rule.audiences@[i]@ == token.audience@[j]@);
    }
    if shares_audience(rule, token) {
        let (i, j) = choose|i: int, j: int|
            0 <= i < rule.audiences@.len() && 0 <= j < token.audience@.len() && (
            #[trigger] rule.audiences@[i])@ == (#[trigger] token.audience@[j])@;
        let s = rule.audiences@[i]@;
        assert(a[i] == s);
        assert(b[j] == s);
        assert(a.contains(s) && b.contains(s));
    }
}

/// A token passes the claims of a rule exactly where the rule names no audience
/// or one that the token has, and the token grants every scope of the rule, each
/// of them. A wrong audience is answered with 401; a scope that is not granted,
/// whichever of them it is, with 403. The challenge asks for the scopes of the
/// rule, and the nonce is passed on.
#[verifier::rlimit(30)]
pub proof fn law_claims_are_checked_one_by_one<C: HasScopes>(
    guard: &Guard<C>,
    rule: &Rule<C>,
    token: &ValidatedRequest<C>,
    nonce: Option<&str>,
    r: Option<Outcome<C>>,
)
    requires
        call_ensures(Guard::<C>::check_claims, (guard, rule, token, nonce), r),
    ensures
        r is None <==> (rule.audiences@.len() == 0 || shares_audience(*rule, *token)) && forall|i:
            int|
            0 <= i < rule.scopes@.len() ==> token.claims.grants((#[trigger] rule.scopes@[i])@),
        rule.audiences@.len() > 0 && !shares_audience(*rule, *token) ==> r is Some && r->0 is Deny
            && r->0->status == 401 && texts(r->0->challenges@) == challenge_values(
            guard.metadata()@,
            Some(
                (FailureView {
                    scheme: None,
                    error: FailureClass::Client(FailureCode::InvalidToken),
                    description: Some("The access token audience does not match"@),
                    params: Seq::empty(),
                }),
            ),
            opt_text(rule.scope_param),
        ),
        (rule.audiences@.len() == 0 || shares_audience(*rule, *token)) ==> forall|i: int|
            0 <= i < rule.scopes@.len() && !token.claims.grants((#[trigger] rule.scopes@[i])@) ==> {
                &&& r is Some && r->0 is Deny && r->0->status == 403
                &&& texts(r->0->challenges@) == challenge_values(
                    guard.metadata()@,
                    Some(
                        (FailureView {
                            scheme: None,
                            error: FailureClass::Client(FailureCode::InsufficientScope),
                            description: Some(
                                "The access token has insufficient scope for the requested resource"@,
                            ),
                            params: Seq::empty(),
                        }),
                    ),
                    opt_text(rule.scope_param),
                )
            },
        r is Some ==> r->0 is Deny && opt_text(r->0->Deny_dpop_nonce) == opt_str(nonce),
{
    lemma_audience(*rule, *token);
}

/// The verdict of a custom check: approval denies nothing, `Forbidden` is
/// answered with 403 and `InvalidToken` with 401, with what the check said.
pub proof fn law_custom_check_decides<C>(
    guard: &Guard<C>,
    verdict: Result<(), CheckError>,
    nonce: Option<&str>,
    r: Option<Outcome<C>>,
)
    requires
        call_ensures(Guard::<C>::check_verdict, (guard, verdict, nonce), r),
    ensures
        r is None <==> verdict is Ok,
        verdict is Err && verdict->Err_0 is Forbidden ==> r->0 is Deny && r->0->status == 403
            && texts(r->0->challenges@) == challenge_values(
            guard.metadata()@,
            Some(
                (FailureView {
                    scheme: None,
                    error: FailureClass::Client(FailureCode::InsufficientScope),
                    description: Some(verdict->Err_0->Forbidden_0@),
                    params: Seq::empty(),
                }),
            ),
            None,
        ),
        verdict is Err && verdict->Err_0 is InvalidToken ==> r->0 is Deny && r->0->status == 401
            && texts(r->0->challenges@) == challenge_values(
            guard.metadata()@,
            Some(
                (FailureView {
                    scheme: None,
                    error: FailureClass::Client(FailureCode::InvalidToken),
                    description: Some(verdict->Err_0->InvalidToken_0@),
                    params: Seq::empty(),
                }),
            ),
            None,
        ),
        r is Some ==> opt_text(r->0->Deny_dpop_nonce) == opt_str(nonce),
{
}

/// A rule denies a token by its claims, or else by its custom check, and by
/// nothing else. The check is asked only where audience and scopes are right, and
/// without a check a token with the right claims passes.
#[verifier::rlimit(30)]
pub proof fn law_rule_denies_by_claims_or_check<C: HasScopes>(
    guard: &Guard<C>,
    rule: &Rule<C>,
    token: &ValidatedRequest<C>,
    nonce: Option<&str>,
    r: Option<Outcome<C>>,
)
    requires
        call_ensures(Guard::<C>::check_rule, (guard, rule, token, nonce), r),
    ensures
        rule.audiences@.len() > 0 && !shares_audience(*rule, *token) ==> r is Some && r->0 is Deny
            && r->0->status == 401,
        (rule.audiences@.len() == 0 || shares_audience(*rule, *token)) ==> forall|i: int|
            0 <= i < rule.scopes@.len() && !token.claims.grants((#[trigger] rule.scopes@[i])@)
                ==> r is Some && r->0 is Deny && r->0->status == 403,
        (rule.audiences@.len() == 0 || shares_audience(*rule, *token)) && (forall|i: int|
            0 <= i < rule.scopes@.len() ==> token.claims.grants((#[trigger] rule.scopes@[i])@))
            ==> match rule.check {
            None => r is None,
            Some(f) => match r {
                None => exists|v: Result<(), CheckError>| #[trigger] f.may_return(token, v) && v is Ok,
                Some(o) => o is Deny && exists|e: CheckError| #[trigger]
                    f.may_return(token, Err(e)) && o->status == if e is Forbidden {
                        403u16
                    } else {
                        401u16
                    },
            },
        },
        r is None ==> (rule.audiences@.len() == 0 || shares_audience(*rule, *token)) && forall|i:
            int|
            0 <= i < rule.scopes@.len() ==> token.claims.grants((#[trigger] rule.scopes@[i])@),
{
    lemma_audience(*rule, *token);
    let verdict = choose|verdict: Result<(), CheckError>|
        #![trigger Guard::<C>::possible_verdict(*rule, *token, verdict)]
        Guard::<C>::possible_verdict(*rule, *token, verdict) && guard.rule_denial(
            *rule,
            *token,
            verdict,
            opt_str(nonce),
            r,
        );
    if audience_matches(*rule, *token) && scopes_granted(*rule, *token) && rule.check is Some {
        match verdict {
            Ok(_) => {
                assert(rule.check->0.may_return(token, verdict));
            },
            Err(e) => {
                assert(rule.check->0.may_return(token, Err(e)));
            },
        }
    }
}

/// What becomes of a request with a validated token: a wrong audience is denied
/// with 401 and a scope that is not granted with 403; where the rule has no
/// custom check, any other token is forwarded, and with one it is forwarded only
/// where the check approves. The token that is forwarded is the one that was
/// validated, the credentials are stripped as the rule says, and the nonce of the
/// validator is passed on.
#[verifier::rlimit(30)]
pub proof fn law_token_is_forwarded_by_its_rule<C: HasScopes>(
    guard: &Guard<C>,
    uri: &Uri,
    path: &str,
    rule: &Rule<C>,
    result: ValidationResult<C>,
    token: ValidatedRequest<C>,
    r: Outcome<C>,
)
    requires
        path@ == uri.path@,
        call_ensures(Guard::<C>::rule_for, (guard, path), rule),
        call_ensures(Guard::<C>::finish_check, (guard, uri, result), r),
        result.outcome == Ok::<Option<ValidatedRequest<C>>, TokenFailure>(Some(token)),
    ensures
        rule.audiences@.len() > 0 && !shares_audience(*rule, token) ==> r is Deny && r->status
            == 401,
        (rule.audiences@.len() == 0 || shares_audience(*rule, token)) ==> forall|i: int|
            0 <= i < rule.scopes@.len() && !token.claims.grants((#[trigger] rule.scopes@[i])@)
                ==> r is Deny && r->status == 403,
        (rule.audiences@.len() == 0 || shares_audience(*rule, token)) && (forall|i: int|
            0 <= i < rule.scopes@.len() ==> token.claims.grants((#[trigger] rule.scopes@[i])@))
            ==> match rule.check {
            None => r is Forward,
            Some(f) => if r is Forward {
                exists|v: Result<(), CheckError>| #[trigger] f.may_return(&token, v) && v is Ok
            } else {
                exists|e: CheckError| #[trigger]
                    f.may_return(&token, Err(e)) && r->status == if e is Forbidden {
                        403u16
                    } else {
                        401u16
                    }
            },
        },
        r is Forward ==> {
            &&& r->token is Some && *r->token->0 == token
            &&& r->strip_credentials == rule.strip_credentials
            &&& opt_text(r->Forward_dpop_nonce) == opt_text(result.dpop_nonce)
            &&& rule.audiences@.len() == 0 || shares_audience(*rule, token)
            &&& forall|i: int|
                0 <= i < rule.scopes@.len() ==> token.claims.grants((#[trigger] rule.scopes@[i])@)
        },
        r is Deny ==> opt_text(r->Deny_dpop_nonce) == opt_text(result.dpop_nonce),
{
    lemma_audience(*rule, token);
    let verdict = choose|verdict: Result<(), CheckError>|
        #![trigger guard.decides(guard.rule(uri.path@), result, verdict, r)]
        guard.decides(guard.rule(uri.path@), result, verdict, r) && (result.outcome matches Ok(
            Some(token),
        ) ==> Guard::<C>::possible_verdict(guard.rule(uri.path@), token, verdict));
    assert(Guard::<C>::possible_verdict(*rule, token, verdict));
    if audience_matches(*rule, token) && scopes_granted(*rule, token) && rule.check is Some {
        match verdict {
            Ok(_) => {
                assert(rule.check->0.may_return(&token, verdict));
            },
            Err(e) => {
                assert(rule.check->0.may_return(&token, Err(e)));
            },
        }
    }
}

/// What becomes of a request without a token: it is denied with 401 where its
/// rule requires one, and forwarded without a token otherwise.
pub proof fn law_request_without_token<C: HasScopes>(
    guard: &Guard<C>,
    uri: &Uri,
    path: &str,
    rule: &Rule<C>,
    result: ValidationResult<C>,
    r: Outcome<C>,
)
    requires
        path@ == uri.path@,
        call_ensures(Guard::<C>::rule_for, (guard, path), rule),
        call_ensures(Guard::<C>::finish_check, (guard, uri, result), r),
        result.outcome == Ok::<Option<ValidatedRequest<C>>, TokenFailure>(None),
    ensures
        rule.token is Required ==> {
            &&& r is Deny
            &&& r->status == 401
            &&& texts(r->challenges@) == challenge_values(
                guard.metadata()@,
                None,
                opt_text(rule.scope_param),
            )
            &&& opt_text(r->Deny_dpop_nonce) == opt_text(result.dpop_nonce)
        },
        !(rule.token is Required) ==> {
            &&& r is Forward
            &&& r->token is None
            &&& r->strip_credentials == rule.strip_credentials
            &&& opt_text(r->Forward_dpop_nonce) == opt_text(result.dpop_nonce)
        },
{
}

/// What becomes of a request whose token the validator refused: it is denied,
/// with 400 where the request was malformed, 403 where the scope was too small,
/// the status that was given where the server failed, and 401 otherwise; whatever
/// its rule says. The challenge says why, and asks for the scopes of the rule.
pub proof fn law_refused_token_is_answered_by_its_fault<C: HasScopes>(
    guard: &Guard<C>,
    uri: &Uri,
    path: &str,
    rule: &Rule<C>,
    result: ValidationResult<C>,
    failure: TokenFailure,
    r: Outcome<C>,
)
    requires
        path@ == uri.path@,
        call_ensures(Guard::<C>::rule_for, (guard, path), rule),
        call_ensures(Guard::<C>::finish_check, (guard, uri, result), r),
        result.outcome == Err::<Option<ValidatedRequest<C>>, TokenFailure>(failure),
    ensures
        r is Deny,
        failure.error == FailureClass::Client(FailureCode::InvalidRequest) ==> r->status == 400,
        failure.error == FailureClass::Client(FailureCode::InsufficientScope) ==> r->status == 403,
        failure.error == FailureClass::Client(FailureCode::InvalidToken) ==> r->status == 401,
        failure.error == FailureClass::Client(FailureCode::InvalidDPoPProof) ==> r->status == 401,
        failure.error == FailureClass::Client(FailureCode::UseDPoPNonce) ==> r->status == 401,
        failure.error == FailureClass::Client(FailureCode::InsufficientUserAuthentication)
            ==> r->status == 401,
        failure.error is Server ==> r->status == failure.error->Server_0,
        texts(r->challenges@) == challenge_values(
            guard.metadata()@,
            Some(failure@),
            opt_text(rule.scope_param),
        ),
        opt_text(r->Deny_dpop_nonce) == opt_text(result.dpop_nonce),
{
}

/// How a request begins. One for a public path is forwarded at once, without a
/// token. Any other one is validated under the URI that the client used, and
/// denied with 400 where there is none.
pub proof fn law_check_begins_by_the_rule<C>(
    guard: &Guard<C>,
    uri: &Uri,
    path: &str,
    rule: &Rule<C>,
    base: Option<&Uri>,
    prefix: Option<&str>,
    full: Option<Uri>,
    r: CheckStart<C>,
)
    requires
        path@ == uri.path@,
        call_ensures(Guard::<C>::rule_for, (guard, path), rule),
        call_ensures(Guard::<C>::begin_check, (guard, uri), r),
        base is Some <==> guard.base() is Some,
        base is Some ==> base->0@ == guard.base()->0,
        opt_str(prefix) == guard.prefix(),
        call_ensures(request_uri, (base, prefix, uri), full),
    ensures
        rule.token is Public ==> {
            &&& r is Decided
            &&& r->Decided_0 is Forward
            &&& r->Decided_0->token is None
            &&& r->Decided_0->Forward_dpop_nonce is None
            &&& r->Decided_0->strip_credentials == rule.strip_credentials
        },
        !(rule.token is Public) && full is Some ==> r is Validate && r->Validate_0@ == full->0@,
        !(rule.token is Public) && full is None ==> {
            &&& r is Decided
            &&& r->Decided_0 is Deny
            &&& r->Decided_0->status == 400
            &&& texts(r->Decided_0->challenges@) == challenge_values(
                guard.metadata()@,
                Some(
                    (FailureView {
                        scheme: None,
                        error: FailureClass::Client(FailureCode::InvalidRequest),
                        description: Some("Invalid request URI"@),
                        params: Seq::empty(),
                    }),
                ),
                opt_text(rule.scope_param),
            )
            &&& r->Decided_0->Deny_dpop_nonce is None
        },
{
}

/// The rule that applies to a path is that of one of the routes, or the default
/// rule. A route without parameters applies to the path that it spells out, and
/// without routes the default rule applies to every path.
pub proof fn law_rule_of_a_path<C>(guard: &Guard<C>, path: &str, rule: &Rule<C>, i: int)
    requires
        call_ensures(Guard::<C>::rule_for, (guard, path), rule),
    ensures
        guard.routes().len() == 0 ==> *rule == guard.fallback(),
        0 <= i < guard.routes().len() && guard.routes()[i].0@ == path@ && path@.len() > 0
            && !path@.contains('{') && !path@.contains('}') ==> *rule == guard.routes()[i].1,
{
}

/// The scopes of a guard that is made of these parts.
proof fn lemma_scopes_of_parts<C>(
    guard: Guard<C>,
    metadata: ResourceMetadata,
    routes: Seq<(String, Rule<C>)>,
    resource: Option<Uri>,
    strip_prefix: Option<String>,
    default: Rule<C>,
)
    requires
        guard.is_made_of(metadata, routes, resource, strip_prefix, default),
    ensures
        lists_scopes(guard, routes, default),
{
    assert forall|i: int, k: int| 0 <= i < routes.len() && 0 <= k < routes[i].1.scopes@.len() implies guard.scopes().contains(
        (#[trigger] routes[i].1.scopes@[k])@,
    ) by {
        let list = texts(routes[i].1.scopes@);
        assert(list[k] == routes[i].1.scopes@[k]@);
        assert(list.contains(routes[i].1.scopes@[k]@));
    }
    assert forall|k: int| 0 <= k < default.scopes@.len() implies guard.scopes().contains(
        (#[trigger] default.scopes@[k])@,
    ) by {
        let list = texts(default.scopes@);
        assert(list[k] == default.scopes@[k]@);
        assert(list.contains(default.scopes@[k]@));
    }
    assert forall|s: Seq<char>| #[trigger] guard.scopes().contains(s) implies {
        ||| exists|i: int, k: int|
            0 <= i < routes.len() && 0 <= k < routes[i].1.scopes@.len() && (
            #[trigger] routes[i].1.scopes@[k])@ == s
        ||| exists|k: int| 0 <= k < default.scopes@.len() && (#[trigger] default.scopes@[k])@ == s
    } by {
        assert(is_required_scope(routes, default, s));
        if exists|i: int|
            0 <= i < routes.len() && texts((#[trigger] routes[i]).1.scopes@).contains(s) {
            let i = choose|i: int|
                0 <= i < routes.len() && texts((#[trigger] routes[i]).1.scopes@).contains(s);
            let list = texts(routes[i].1.scopes@);
            let k = choose|k: int| 0 <= k < list.len() && list[k] == s;
            assert(routes[i].1.scopes@[k]@ == s);
        } else {
            let list = texts(default.scopes@);
            let k = choose|k: int| 0 <= k < list.len() && list[k] == s;
            assert(default.scopes@[k]@ == s);
        }
    }
    assert forall|m: int, n: int| 0 <= m < n < guard.scopes().len() implies #[trigger] guard.scopes()[m]
        != #[trigger] guard.scopes()[n] by {
        assert(precedes(guard.scopes()[m], guard.scopes()[n]));
        lemma_precedes_irreflexive(guard.scopes()[m]);
    }
}

/// No text precedes itself.
proof fn lemma_precedes_irreflexive(s: Seq<char>)
    ensures
        !precedes(s, s),
    decreases s.len(),
{
    if s.len() > 0 {
        lemma_precedes_irreflexive(s.subrange(1, s.len() as int));
    }
}

/// The scopes of a guard are those of all its routes and of its default rule:
/// every scope of each of them is there, each once and in the order of texts, and
/// no other.
pub open spec fn lists_scopes<C>(
    guard: Guard<C>,
    routes: Seq<(String, Rule<C>)>,
    default: Rule<C>,
) -> bool {
    &&& forall|i: int, k: int|
        0 <= i < routes.len() && 0 <= k < routes[i].1.scopes@.len() ==> guard.scopes().contains(
            (#[trigger] routes[i].1.scopes@[k])@,
        )
    &&& forall|k: int|
        0 <= k < default.scopes@.len() ==> guard.scopes().contains((#[trigger] default.scopes@[k])@)
    &&& forall|s: Seq<char>| #[trigger]
        guard.scopes().contains(s) ==> {
            ||| exists|i: int, k: int|
                0 <= i < routes.len() && 0 <= k < routes[i].1.scopes@.len() && (
                #[trigger] routes[i].1.scopes@[k])@ == s
            ||| exists|k: int|
                0 <= k < default.scopes@.len() && (#[trigger] default.scopes@[k])@ == s
        }
    &&& forall|m: int, n: int|
        0 <= m < n < guard.scopes().len() ==> precedes(
            #[trigger] guard.scopes()[m],
            #[trigger] guard.scopes()[n],
        ) && guard.scopes()[m] != guard.scopes()[n]
}

/// A guard that was made lists the scopes of all its routes and of its default
/// rule, however many routes there are, and no others; and it keeps the parts
/// that it was made of.
pub proof fn law_guard_lists_the_scopes_of_its_rules<C>(
    metadata: ResourceMetadata,
    routes: Vec<(String, Rule<C>)>,
    resource: Option<Uri>,
    strip_prefix: Option<String>,
    default: Rule<C>,
    r: Result<Guard<C>, ConfigError>,
)
    requires
        call_ensures(Guard::<C>::new, (metadata, routes, resource, strip_prefix, default), r),
        r is Ok,
    ensures
        lists_scopes(r->Ok_0, routes@, default),
        r->Ok_0.metadata() == metadata,
        r->Ok_0.routes() == routes@,
        r->Ok_0.fallback() == default,
        r->Ok_0.base() is Some <==> resource is Some,
        resource is Some ==> r->Ok_0.base()->0 == resource->0@,
        r->Ok_0.prefix() is Some <==> strip_prefix is Some,
        strip_prefix is Some ==> r->Ok_0.prefix()->0 == strip_prefix->0@,
{
    lemma_scopes_of_parts(r->Ok_0, metadata, routes@, resource, strip_prefix, default);
}

/// The same holds of a guard that was built.
pub proof fn law_built_guard_lists_the_scopes_of_its_rules<C>(
    builder: GuardBuilder<C>,
    metadata: ResourceMetadata,
    r: Result<Guard<C>, ConfigError>,
)
    requires
        call_ensures(GuardBuilder::<C>::build, (builder, metadata), r) || call_ensures(
            GuardBuilder::<C>::try_build,
            (builder, metadata),
            Some(r),
        ),
        r is Ok,
    ensures
        lists_scopes(r->Ok_0, builder.routes@, builder.default),
        r->Ok_0.metadata() == metadata,
        r->Ok_0.routes() == builder.routes@,
        r->Ok_0.fallback() == builder.default,
        r->Ok_0.base() is Some <==> builder.resource is Some,
        builder.resource is Some ==> r->Ok_0.base()->0 == builder.resource->0@,
        r->Ok_0.prefix() is Some <==> builder.strip_prefix is Some,
        builder.strip_prefix is Some ==> r->Ok_0.prefix()->0 == builder.strip_prefix->0@,
{
    lemma_scopes_of_parts(
        r->Ok_0,
        metadata,
        builder.routes@,
        builder.resource,
        builder.strip_prefix,
        builder.default,
    );
}

/// A public rule with an audience or a scope is refused, wherever it stands, and
/// named by its pattern, the first of them before the others; and that is the
/// only reason for this error.
#[verifier::rlimit(30)]
pub proof fn law_public_rules_with_constraints_are_refused<C>(
    metadata: ResourceMetadata,
    routes: Vec<(String, Rule<C>)>,
    resource: Option<Uri>,
    strip_prefix: Option<String>,
    default: Rule<C>,
    r: Result<Guard<C>, ConfigError>,
)
    requires
        call_ensures(Guard::<C>::new, (metadata, routes, resource, strip_prefix, default), r),
    ensures
        (r is Err && r->Err_0 is PublicRuleWithConstraints) <==> {
            ||| exists|i: int|
                0 <= i < routes@.len() && (#[trigger] routes@[i]).1.token is Public && (
                routes@[i].1.audiences@.len() > 0 || routes@[i].1.scopes@.len() > 0)
            ||| default.token is Public && (default.audiences@.len() > 0 || default.scopes@.len()
                > 0)
        },
        r is Err && r->Err_0 is PublicRuleWithConstraints ==> forall|i: int|
            0 <= i < routes@.len() && (#[trigger] routes@[i]).1.token is Public && (
            routes@[i].1.audiences@.len() > 0 || routes@[i].1.scopes@.len() > 0) && (forall|j: int|
                0 <= j < i ==> !((#[trigger] routes@[j]).1.token is Public && (
                routes@[j].1.audiences@.len() > 0 || routes@[j].1.scopes@.len() > 0)))
                ==> r->Err_0->PublicRuleWithConstraints_0@ == routes@[i].0@,
        r is Err && r->Err_0 is PublicRuleWithConstraints && (forall|i: int|
            0 <= i < routes@.len() ==> !((#[trigger] routes@[i]).1.token is Public && (
            routes@[i].1.audiences@.len() > 0 || routes@[i].1.scopes@.len() > 0)))
            ==> r->Err_0->PublicRuleWithConstraints_0@ == "<default>"@,
        r is Err ==> !(r->Err_0 is Metadata),
{
    match r {
        Err(ConfigError::PublicRuleWithConstraints(p)) => {
            assert forall|i: int|
                0 <= i < routes@.len() && (#[trigger] routes@[i]).1.token is Public && (
                routes@[i].1.audiences@.len() > 0 || routes@[i].1.scopes@.len() > 0) && (forall|j:
                    int|
                    0 <= j < i ==> !((#[trigger] routes@[j]).1.token is Public && (
                    routes@[j].1.audiences@.len() > 0 || routes@[j].1.scopes@.len() > 0))) implies p@
                == routes@[i].0@ by {
                assert(unenforceable(routes@[i].1));
                assert(!enforceable(routes@, routes@.len() as int));
                let k = choose|k: int|
                    {
                        &&& 0 <= k < routes@.len()
                        &&& unenforceable((#[trigger] routes@[k]).1)
                        &&& p == routes@[k].0
                        &&& enforceable(routes@, k)
                    };
                if i < k {
                    assert(!unenforceable(routes@[i].1));
                } else if k < i {
                    assert(unenforceable(routes@[k].1));
                }
            }
        },
        Err(e) => {
            assert(enforceable(routes@, routes@.len() as int));
            assert forall|i: int| 0 <= i < routes@.len() implies !((#[trigger] routes@[i]).1.token is Public
                && (routes@[i].1.audiences@.len() > 0 || routes@[i].1.scopes@.len() > 0)) by {
                assert(!unenforceable(routes@[i].1));
            }
        },
        Ok(g) => {
            assert forall|i: int| 0 <= i < routes@.len() implies !((#[trigger] routes@[i]).1.token is Public
                && (routes@[i].1.audiences@.len() > 0 || routes@[i].1.scopes@.len() > 0)) by {
                assert(!unenforceable(routes@[i].1));
            }
        },
    }
}

/// The metadata document of a guard is served under the well-known segment, with
/// the path of the resource identifier behind it unless that is `/`. It says what
/// the validator says of itself, each under its name, and lists the scopes of the
/// guard where there are any.
#[verifier::rlimit(30)]
pub proof fn law_resource_metadata<C>(guard: &Guard<C>, r: Result<(String, Vec<u8>), ConfigError>)
    requires
        call_ensures(Guard::<C>::resource_metadata, (guard,), r),
    ensures
        r is Ok,
        r->Ok_0.0@ == "/.well-known/oauth-protected-resource"@ + (match guard.base() {
            Some(u) => if u.path == seq!['/'] {
                Seq::empty()
            } else {
                u.path
            },
            None => Seq::empty(),
        }),
        exists|m: Map<Seq<char>, Json>|
            {
                &&& r->Ok_0.1@ == #[trigger] json_text(m)
                &&& m.dom().contains("scopes_supported"@) <==> guard.scopes().len() > 0
                &&& guard.scopes().len() > 0 ==> m["scopes_supported"@] == Json::Strings(
                    guard.scopes(),
                )
                &&& m.dom().contains("realm"@) <==> guard.metadata().realm is Some
                &&& guard.metadata().realm is Some ==> m["realm"@] == Json::Str(
                    guard.metadata().realm->0@,
                )
                &&& m.dom().contains("resource"@) <==> guard.metadata().resource is Some
                &&& guard.metadata().resource is Some ==> m["resource"@] == Json::Str(
                    guard.metadata().resource->0@,
                )
                &&& m.dom().contains("authorization_servers"@)
                    <==> guard.metadata().authorization_servers is Some
                &&& guard.metadata().authorization_servers is Some ==> m["authorization_servers"@]
                    == Json::Strings(texts(guard.metadata().authorization_servers->0@))
            },
{
    reveal_strlit("");
    assert(""@ == Seq::<char>::empty());
    reveal_strlit("/");
    assert("/"@ == seq!['/']);
    let m = metadata_document(guard.metadata()@, guard.scopes());
    law_metadata_lists_scopes(guard.metadata()@, guard.scopes());
    lemma_metadata_keys();
    assert(r->Ok_0.1@ == json_text(m));
}

/// The names of the members of the metadata are distinct.
proof fn lemma_metadata_keys()
    ensures
        "realm"@ != "authorization_servers"@,
        "realm"@ != "dpop_signing_alg_values_supported"@,
        "realm"@ != "dpop_bound_access_tokens_required"@,
        "realm"@ != "resource"@,
        "realm"@ != "bearer_methods_supported"@,
        "realm"@ != "scopes_supported"@,
        "authorization_servers"@ != "dpop_signing_alg_values_supported"@,
        "authorization_servers"@ != "dpop_bound_access_tokens_required"@,
        "authorization_servers"@ != "resource"@,
        "authorization_servers"@ != "bearer_methods_supported"@,
        "authorization_servers"@ != "scopes_supported"@,
        "resource"@ != "dpop_signing_alg_values_supported"@,
        "resource"@ != "dpop_bound_access_tokens_required"@,
        "resource"@ != "bearer_methods_supported"@,
        "resource"@ != "scopes_supported"@,
        "bearer_methods_supported"@ != "dpop_signing_alg_values_supported"@,
        "bearer_methods_supported"@ != "dpop_bound_access_tokens_required"@,
        "bearer_methods_supported"@ != "scopes_supported"@,
        "scopes_supported"@ != "dpop_signing_alg_values_supported"@,
        "scopes_supported"@ != "dpop_bound_access_tokens_required"@,
        "dpop_signing_alg_values_supported"@ != "dpop_bound_access_tokens_required"@,
{
    reveal_strlit("scopes_supported");
    reveal_strlit("realm");
    reveal_strlit("authorization_servers");
    reveal_strlit("dpop_signing_alg_values_supported");
    reveal_strlit("dpop_bound_access_tokens_required");
    reveal_strlit("resource");
    reveal_strlit("bearer_methods_supported");
    assert("scopes_supported"@.len() == 16);
    assert("realm"@.len() == 5);
    assert("authorization_servers"@.len() == 21);
    assert("dpop_signing_alg_values_supported"@.len() == 33);
    assert("dpop_bound_access_tokens_required"@.len() == 33);
    assert("dpop_signing_alg_values_supported"@[5] == 's');
    assert("dpop_bound_access_tokens_required"@[5] == 'b');
    assert("resource"@.len() == 8);
    assert("bearer_methods_supported"@.len() == 24);
}

/// The routing table of a list of routes: each pattern leads to its own place.
proof fn lemma_table<C>(routes: Seq<(String, Rule<C>)>, n: int)
    requires
        0 <= n <= routes.len(),
    ensures
        table_of(patterns_of(routes).take(n)) == Seq::new(
            n as nat,
            |k: int| (routes[k].0@, k as usize),
        ),
        n == routes.len() ==> patterns_of(routes).take(n) == patterns_of(routes),
{
    assert(table_of(patterns_of(routes).take(n)) =~= Seq::new(
        n as nat,
        |k: int| (routes[k].0@, k as usize),
    ));
}

/// The router decides which route a path matches, and the rule is that of the
/// route at the place that the router names; where it names none, the default
/// rule applies.
pub proof fn law_router_picks_the_rule<C>(guard: &Guard<C>, path: &str, rule: &Rule<C>)
    requires
        call_ensures(Guard::<C>::rule_for, (guard, path), rule),
    ensures
        match route_match(
            Seq::new(guard.routes().len(), |k: int| (guard.routes()[k].0@, k as usize)),
            path@,
        ) {
            Some(i) => *rule == guard.routes()[i as int].1,
            None => *rule == guard.fallback(),
        },
{
    lemma_table(guard.routes(), guard.routes().len() as int);
}

/// A pattern that the router refuses, given those before it, is reported: the
/// first of them, with what the router says of it. A guard is made exactly where
/// no public rule has constraints and the router refuses none of the patterns.
pub proof fn law_refused_patterns_are_reported<C>(
    metadata: ResourceMetadata,
    routes: Vec<(String, Rule<C>)>,
    resource: Option<Uri>,
    strip_prefix: Option<String>,
    default: Rule<C>,
    r: Result<Guard<C>, ConfigError>,
)
    requires
        call_ensures(Guard::<C>::new, (metadata, routes, resource, strip_prefix, default), r),
    ensures
        r is Ok ==> forall|i: int|
            #![trigger routes@[i]]
            0 <= i < routes@.len() ==> route_refusal(
                Seq::new(i as nat, |k: int| (routes@[k].0@, k as usize)),
                routes@[i].0@,
            ) is None,
        r is Err && r->Err_0 is Route ==> exists|i: int|
            #![trigger routes@[i]]
            {
                &&& 0 <= i < routes@.len()
                &&& route_refusal(
                    Seq::new(i as nat, |k: int| (routes@[k].0@, k as usize)),
                    routes@[i].0@,
                ) == Some(insert_error_repr(r->Err_0->Route_0))
                &&& forall|j: int|
                    #![trigger routes@[j]]
                    0 <= j < i ==> route_refusal(
                        Seq::new(j as nat, |k: int| (routes@[k].0@, k as usize)),
                        routes@[j].0@,
                    ) is None
            },
{
    let patterns = patterns_of(routes@);
    assert forall|i: int| 0 <= i < routes@.len() implies #[trigger] refusal_at(patterns, i)
        == route_refusal(
        Seq::new(i as nat, |k: int| (routes@[k].0@, k as usize)),
        routes@[i].0@,
    ) by {
        lemma_table(routes@, i);
    }
    match r {
        Ok(g) => {
            assert forall|i: int|
                #![trigger routes@[i]]
                0 <= i < routes@.len() implies route_refusal(
                Seq::new(i as nat, |k: int| (routes@[k].0@, k as usize)),
                routes@[i].0@,
            ) is None by {
                assert(refusal_at(patterns, i) is None);
            }
        },
        Err(ConfigError::Route(e)) => {
            let i = choose|i: int|
                {
                    &&& 0 <= i < patterns.len()
                    &&& accepted(patterns, i)
                    &&& #[trigger] refusal_at(patterns, i) == Some(insert_error_repr(e))
                };
            assert forall|j: int|
                #![trigger routes@[j]]
                0 <= j < i implies route_refusal(
                Seq::new(j as nat, |k: int| (routes@[k].0@, k as usize)),
                routes@[j].0@,
            ) is None by {
                assert(refusal_at(patterns, j) is None);
            }
            assert(routes@[i].0@ == patterns[i]);
        },
        _ => {},
    }
}

/// How often a character stands in a text from `i` on.
pub open spec fn count_from(s: Seq<char>, c: char, i: int) -> nat
    decreases s.len() - i,
{
    if !(0 <= i < s.len()) {
        0
    } else {
        count_from(s, c, i + 1) + if s[i] == c {
            1nat
        } else {
            0nat
        }
    }
}

/// There are no more openings than opening braces.
proof fn lemma_openings_bound(pattern: Seq<char>, i: int)
    ensures
        openings(pattern, i) <= count_from(pattern, '{', i),
    decreases pattern.len() - i,
{
    if 0 <= i < pattern.len() {
        if doubled(pattern, i) {
            lemma_openings_bound(pattern, i + 2);
            reveal_with_fuel(count_from, 3);
        } else {
            lemma_openings_bound(pattern, i + 1);
        }
    }
}

/// Fewer characters from a later place on.
proof fn lemma_count_later(s: Seq<char>, c: char, i: int, j: int)
    requires
        0 <= i <= j,
    ensures
        count_from(s, c, j) <= count_from(s, c, i),
    decreases j - i,
{
    if i < j && i < s.len() {
        lemma_count_later(s, c, i + 1, j);
    }
}

/// There are no more parameters than opening braces.
proof fn lemma_parameters_bound(pattern: Seq<char>, i: int)
    ensures
        parameters(pattern, i) <= count_from(pattern, '{', i),
    decreases pattern.len() - i,
{
    if 0 <= i < pattern.len() {
        if doubled(pattern, i) {
            lemma_parameters_bound(pattern, i + 2);
            reveal_with_fuel(count_from, 3);
        } else if pattern[i] == '}' {
        } else if pattern[i] != '{' {
            lemma_parameters_bound(pattern, i + 1);
        } else {
            lemma_name_end(pattern, i + 2);
            match parameter_end(pattern, i) {
                None => {},
                Some(end) => {
                    lemma_parameters_bound(pattern, end + 1);
                    lemma_openings_bound(pattern, end + 1);
                    lemma_count_later(pattern, '{', i + 1, end + 1);
                },
            }
        }
    }
}

/// A pattern with at most twenty-five opening braces can be given to a router.
pub proof fn law_few_parameters_are_routable(pattern: &str, r: bool)
    requires
        call_ensures(is_routable, (pattern,), r),
        count_from(pattern@, '{', 0) <= 25,
    ensures
        r,
{
    lemma_parameters_bound(pattern@, 0);
}

/// The name of a parameter: of ordinary characters, and at least one.
pub open spec fn plain_name(name: Seq<char>) -> bool {
    name.len() > 0 && forall|i: int|
        0 <= i < name.len() ==> (#[trigger] name[i]) != '{' && name[i] != '}' && name[i] != '*'
            && name[i] != '/'
}

/// A segment of a pattern: some literal text without braces, and one parameter.
pub open spec fn segment(lead: Seq<char>, name: Seq<char>) -> Seq<char> {
    lead + seq!['{'] + name + seq!['}']
}

/// The pattern that is made of segments, one after another.
pub open spec fn pattern_of(segments: Seq<(Seq<char>, Seq<char>)>) -> Seq<char>
    decreases segments.len(),
{
    if segments.len() == 0 {
        Seq::empty()
    } else {
        segment(segments[0].0, segments[0].1) + pattern_of(
            segments.subrange(1, segments.len() as int),
        )
    }
}

/// Every segment begins with literal text and has a parameter with a plain name.
pub open spec fn plain_segments(segments: Seq<(Seq<char>, Seq<char>)>) -> bool {
    forall|k: int|
        0 <= k < segments.len() ==> (#[trigger] segments[k]).0.len() > 0
            && !segments[k].0.contains('{') && !segments[k].0.contains('}') && plain_name(
            segments[k].1,
        )
}

/// A plain name goes on to the brace that closes it.
proof fn lemma_plain_name_end(pattern: Seq<char>, i: int, end: int)
    requires
        0 <= i <= end < pattern.len(),
        pattern[end] == '}',
        !stands_at(pattern, end + 1, '}'),
        forall|k: int|
            i <= k < end ==> (#[trigger] pattern[k]) != '{' && pattern[k] != '}' && pattern[k] != '*'
                && pattern[k] != '/',
    ensures
        name_end(pattern, i) == Some(end),
    decreases end - i,
{
    if i < end {
        assert(!doubled(pattern, i));
        lemma_plain_name_end(pattern, i + 1, end);
    } else {
        assert(!doubled(pattern, i));
    }
}

/// Literal text holds no parameter.
proof fn lemma_literal_parameters(pattern: Seq<char>, i: int, j: int)
    requires
        0 <= i <= j <= pattern.len(),
        forall|k: int| i <= k < j ==> (#[trigger] pattern[k]) != '{' && pattern[k] != '}',
    ensures
        parameters(pattern, i) == parameters(pattern, j),
    decreases j - i,
{
    if i < j {
        assert(!doubled(pattern, i));
        lemma_literal_parameters(pattern, i + 1, j);
    }
}

/// Each segment of a pattern has one parameter.
proof fn lemma_segment_parameters(
    front: Seq<char>,
    segments: Seq<(Seq<char>, Seq<char>)>,
)
    requires
        plain_segments(segments),
    ensures
        parameters(front + pattern_of(segments), front.len() as int) == segments.len(),
    decreases segments.len(),
{
    let whole = front + pattern_of(segments);
    let a = front.len() as int;
    if segments.len() > 0 {
        let lead = segments[0].0;
        let name = segments[0].1;
        let rest = segments.subrange(1, segments.len() as int);
        let piece = segment(lead, name);
        let open = a + lead.len();
        let end = open + 1 + name.len();
        assert(whole == front + piece + pattern_of(rest));
        assert forall|k: int| a <= k < open implies (#[trigger] whole[k]) != '{' && whole[k] != '}' by {
            assert(whole[k] == lead[k - a]);
            assert(lead.contains(lead[k - a]));
        }
        assert(whole[open] == '{');
        assert forall|k: int| open < k < end implies (#[trigger] whole[k]) != '{' && whole[k] != '}'
            && whole[k] != '*' && whole[k] != '/' by {
            assert(whole[k] == name[k - open - 1]);
        }
        assert(whole[end] == '}');
        assert forall|k: int| 0 <= k < rest.len() implies (#[trigger] rest[k]).0.len() > 0
            && !rest[k].0.contains('{') && !rest[k].0.contains('}') && plain_name(rest[k].1) by {
            assert(rest[k] == segments[k + 1]);
        }
        assert(!stands_at(whole, end + 1, '}') && !stands_at(whole, end + 1, '{')) by {
            if end + 1 < whole.len() {
                let next = rest[0].0;
                assert(pattern_of(rest)[0] == next[0]);
                assert(whole[end + 1] == next[0]);
                assert(next.contains(next[0]));
            }
        }
        lemma_literal_parameters(whole, a, open);
        assert(!doubled(whole, open)) by {
            assert(whole[open + 1] == name[0]);
        }
        lemma_plain_name_end(whole, open + 2, end);
        assert(parameter_end(whole, open) == Some(end));
        assert(!doubled(whole, end + 1));
        lemma_segment_parameters(front + piece, rest);
        assert((front + piece).len() == end + 1);
    }
}

/// A pattern of plain segments can be given to a router exactly where it has at
/// most twenty-five of them.
pub proof fn law_routable_patterns_have_few_parameters(
    segments: Seq<(Seq<char>, Seq<char>)>,
    pattern: &str,
    r: bool,
)
    requires
        plain_segments(segments),
        pattern@ == pattern_of(segments),
        call_ensures(is_routable, (pattern,), r),
    ensures
        r <==> segments.len() <= 25,
{
    let none = Seq::<char>::empty();
    assert(none + pattern@ == pattern@);
    lemma_segment_parameters(none, segments);
}

/// A builder gives up only on a pattern with more than twenty-five opening
/// braces: without one, there is an answer.
pub proof fn law_builder_answers<C>(
    builder: GuardBuilder<C>,
    metadata: ResourceMetadata,
    r: Option<Result<Guard<C>, ConfigError>>,
)
    requires
        call_ensures(GuardBuilder::<C>::try_build, (builder, metadata), r),
        forall|i: int|
            0 <= i < builder.routes@.len() ==> count_from((#[trigger] builder.routes@[i]).0@, '{', 0)
                <= 25,
    ensures
        r is Some,
{
    assert forall|i: int| 0 <= i < builder.routes@.len() implies routable(
        #[trigger] patterns_of(builder.routes@)[i],
    ) by {
        assert(patterns_of(builder.routes@)[i] == builder.routes@[i].0@);
        lemma_parameters_bound(builder.routes@[i].0@, 0);
    }
}

/// A builder begins without routes and asks for a token everywhere.
pub proof fn law_builder_begins_closed<C>(r: GuardBuilder<C>)
    requires
        call_ensures(Guard::<C>::builder, (), r),
    ensures
        r.routes@.len() == 0,
        r.resource is None,
        r.strip_prefix is None,
        r.default.token is Required,
        r.default.audiences@.len() == 0,
        r.default.scopes@.len() == 0,
        r.default.check is None,
        r.default.strip_credentials,
{
}

/// Each setter of a builder sets its part and leaves the others; routes are kept
/// in the order in which they are added.
pub proof fn law_builder_sets_one_part<C>(
    builder: GuardBuilder<C>,
    pattern: String,
    rule: Rule<C>,
    uri: Uri,
    maybe_uri: Option<Uri>,
    prefix: String,
    maybe_prefix: Option<String>,
    r: GuardBuilder<C>,
)
    ensures
        call_ensures(GuardBuilder::<C>::route, (builder, pattern, rule), r) ==> {
            &&& r.routes@ == builder.routes@.push((pattern, rule))
            &&& r.resource == builder.resource
            &&& r.strip_prefix == builder.strip_prefix
            &&& r.default == builder.default
        },
        call_ensures(GuardBuilder::<C>::resource, (builder, uri), r) ==> {
            &&& r.resource == Some(uri)
            &&& r.routes == builder.routes
            &&& r.strip_prefix == builder.strip_prefix
            &&& r.default == builder.default
        },
        call_ensures(GuardBuilder::<C>::maybe_resource, (builder, maybe_uri), r) ==> {
            &&& r.resource == maybe_uri
            &&& r.routes == builder.routes
            &&& r.strip_prefix == builder.strip_prefix
            &&& r.default == builder.default
        },
        call_ensures(GuardBuilder::<C>::strip_prefix, (builder, prefix), r) ==> {
            &&& r.strip_prefix == Some(prefix)
            &&& r.routes == builder.routes
            &&& r.resource == builder.resource
            &&& r.default == builder.default
        },
        call_ensures(GuardBuilder::<C>::maybe_strip_prefix, (builder, maybe_prefix), r) ==> {
            &&& r.strip_prefix == maybe_prefix
            &&& r.routes == builder.routes
            &&& r.resource == builder.resource
            &&& r.default == builder.default
        },
        call_ensures(GuardBuilder::<C>::default, (builder, rule), r) ==> {
            &&& r.default == rule
            &&& r.routes == builder.routes
            &&& r.resource == builder.resource
            &&& r.strip_prefix == builder.strip_prefix
        },
{
}

/// What a guard shows of itself: its scopes, its resource identifier and its
/// prefix.
pub proof fn law_guard_shows_its_settings<C>(guard: &Guard<C>, r: String)
    requires
        call_ensures(Guard::<C>::describe, (guard,), r),
    ensures
        r@ == "Guard { scopes_supported: "@ + list_repr(guard.scopes()) + ", base_uri: "@ + (
        match guard.base() {
            Some(u) => "Some("@ + u.text() + ")"@,
            None => "None"@,
        }) + ", strip_prefix: "@ + opt_repr(guard.prefix()) + ", .. }"@,
{
}

/// A request whose URI cannot be told is denied with 400 and the challenge of a
/// malformed request, and no nonce.
pub proof fn law_bad_uri_is_denied<C>(
    guard: &Guard<C>,
    uri: &Uri,
    path: &str,
    rule: &Rule<C>,
    r: Outcome<C>,
)
    requires
        path@ == uri.path@,
        call_ensures(Guard::<C>::rule_for, (guard, path), rule),
        call_ensures(Guard::<C>::deny_uri, (guard, uri), r),
    ensures
        r is Deny,
        r->status == 400,
        texts(r->challenges@) == challenge_values(
            guard.metadata()@,
            Some(
                (FailureView {
                    scheme: None,
                    error: FailureClass::Client(FailureCode::InvalidRequest),
                    description: Some("Invalid request URI"@),
                    params: Seq::empty(),
                }),
            ),
            opt_text(rule.scope_param),
        ),
        r->Deny_dpop_nonce is None,
{
}

/// How many challenges a denial carries: one for bearer tokens, unless tokens have
/// to be bound to a DPoP key, and one for DPoP where it is supported or demanded.
pub open spec fn schemes_of(metadata: ResourceMetadata) -> nat {
    if metadata.dpop_bound_access_tokens_required == Some(true) {
        1
    } else if metadata.dpop_signing_alg_values_supported is Some {
        2
    } else {
        1
    }
}

/// A denied request is challenged, once for each scheme on offer, whichever check
/// denied it; only a failure of the server itself is answered without a challenge.
#[verifier::rlimit(30)]
pub proof fn law_denials_are_challenged<C: HasScopes>(
    guard: &Guard<C>,
    rule: &Rule<C>,
    token: &ValidatedRequest<C>,
    verdict: Result<(), CheckError>,
    nonce: Option<&str>,
    uri: &Uri,
    result: ValidationResult<C>,
)
    ensures
        forall|r: Option<Outcome<C>>| #[trigger]
            call_ensures(Guard::<C>::check_claims, (guard, rule, token, nonce), r) && r is Some
                ==> r->0 is Deny && r->0->challenges@.len() == schemes_of(guard.metadata()),
        forall|r: Option<Outcome<C>>| #[trigger]
            call_ensures(Guard::<C>::check_verdict, (guard, verdict, nonce), r) && r is Some
                ==> r->0 is Deny && r->0->challenges@.len() == schemes_of(guard.metadata()),
        forall|r: Option<Outcome<C>>| #[trigger]
            call_ensures(Guard::<C>::check_rule, (guard, rule, token, nonce), r) && r is Some
                ==> r->0 is Deny && r->0->challenges@.len() == schemes_of(guard.metadata()),
        forall|r: Outcome<C>| #[trigger]
            call_ensures(Guard::<C>::deny_uri, (guard, uri), r) ==> r is Deny
                && r->challenges@.len() == schemes_of(guard.metadata()),
        forall|r: CheckStart<C>| #[trigger]
            call_ensures(Guard::<C>::begin_check, (guard, uri), r) && r is Decided
                && r->Decided_0 is Deny ==> r->Decided_0->challenges@.len() == schemes_of(
                guard.metadata(),
            ),
        forall|r: Outcome<C>| #[trigger]
            call_ensures(Guard::<C>::finish_check, (guard, uri, result), r) && r is Deny
                ==> r->challenges@.len() == if result.outcome is Err
                && result.outcome->Err_0.error is Server {
                0
            } else {
                schemes_of(guard.metadata())
            },
{
}

/// A builder gives up only where every rule can be enforced and a pattern with
/// more than twenty-five opening braces comes before any that the router refuses.
pub proof fn law_builder_gives_up_on_long_patterns<C>(
    builder: GuardBuilder<C>,
    metadata: ResourceMetadata,
    r: Option<Result<Guard<C>, ConfigError>>,
)
    requires
        call_ensures(GuardBuilder::<C>::try_build, (builder, metadata), r),
        r is None,
    ensures
        !(builder.default.token is Public && (builder.default.audiences@.len() > 0
            || builder.default.scopes@.len() > 0)),
        forall|i: int|
            0 <= i < builder.routes@.len() ==> !((#[trigger] builder.routes@[i]).1.token is Public
                && (builder.routes@[i].1.audiences@.len() > 0 || builder.routes@[i].1.scopes@.len()
                > 0)),
        exists|i: int|
            #![trigger builder.routes@[i]]
            {
                &&& 0 <= i < builder.routes@.len()
                &&& count_from(builder.routes@[i].0@, '{', 0) > 25
                &&& forall|j: int|
                    #![trigger builder.routes@[j]]
                    0 <= j < i ==> route_refusal(
                        Seq::new(j as nat, |k: int| (builder.routes@[k].0@, k as usize)),
                        builder.routes@[j].0@,
                    ) is None
            },
{
    let routes = builder.routes@;
    let patterns = patterns_of(routes);
    assert forall|i: int| 0 <= i < routes.len() implies !((#[trigger] routes[i]).1.token is Public
        && (routes[i].1.audiences@.len() > 0 || routes[i].1.scopes@.len() > 0)) by {
        assert(!unenforceable(routes[i].1));
    }
    let i = choose|i: int|
        {
            &&& 0 <= i < routes.len()
            &&& accepted(patterns, i)
            &&& !routable(#[trigger] patterns[i])
        };
    lemma_parameters_bound(patterns[i], 0);
    assert(patterns[i] == routes[i].0@);
    assert forall|j: int|
        #![trigger routes[j]]
        0 <= j < i implies route_refusal(
        Seq::new(j as nat, |k: int| (routes[k].0@, k as usize)),
        routes[j].0@,
    ) is None by {
        assert(refusal_at(patterns, j) is None);
        lemma_table(routes, j);
    }
}

/// A builder gives up where every rule can be enforced and, before the router
/// refuses any, a pattern of more than twenty-five plain segments comes.
pub proof fn law_builder_does_not_take_long_patterns<C>(
    builder: GuardBuilder<C>,
    metadata: ResourceMetadata,
    segments: Seq<(Seq<char>, Seq<char>)>,
    i: int,
    r: Option<Result<Guard<C>, ConfigError>>,
)
    requires
        call_ensures(GuardBuilder::<C>::try_build, (builder, metadata), r),
        !(builder.default.token is Public),
        forall|k: int|
            0 <= k < builder.routes@.len() ==> !((#[trigger] builder.routes@[k]).1.token is Public),
        0 <= i < builder.routes@.len(),
        plain_segments(segments),
        segments.len() > 25,
        builder.routes@[i].0@ == pattern_of(segments),
        forall|j: int|
            #![trigger builder.routes@[j]]
            0 <= j < i ==> route_refusal(
                Seq::new(j as nat, |k: int| (builder.routes@[k].0@, k as usize)),
                builder.routes@[j].0@,
            ) is None,
    ensures
        r is None,
{
    let routes = builder.routes@;
    let patterns = patterns_of(routes);
    let none = Seq::<char>::empty();
    assert(none + pattern_of(segments) == pattern_of(segments));
    lemma_segment_parameters(none, segments);
    assert(patterns[i] == routes[i].0@);
    assert(!routable(patterns[i]));
    assert(accepted(patterns, i)) by {
        assert forall|j: int| 0 <= j < i implies (#[trigger] refusal_at(patterns, j)) is None by {
            lemma_table(routes, j);
            assert(patterns[j] == routes[j].0@);
        }
    }
}

/// A doubled brace directly behind a parameter. Where the name is one ASCII
/// character, it stands for a brace; where the name is longer, every opening
/// brace from there on may begin a parameter, and is counted.
pub proof fn law_doubled_brace_behind_a_parameter(
    lead: Seq<char>,
    name: Seq<char>,
    rest: Seq<char>,
)
    requires
        !lead.contains('{'),
        !lead.contains('}'),
        plain_name(name),
        rest.len() >= 2,
        rest[0] == '{' && rest[1] == '{',
    ensures
        ({
            let pattern = segment(lead, name) + rest;
            let end = lead.len() + name.len() + 2;
            &&& name.len() == 1 && name[0] <= '\u{7f}' ==> parameters(pattern, 0) == 1 + parameters(
                pattern,
                end as int,
            )
            &&& name.len() > 1 || name[0] > '\u{7f}' ==> parameters(pattern, 0) == 1 + openings(
                pattern,
                end as int,
            )
        }),
{
    let pattern = segment(lead, name) + rest;
    let open = lead.len() as int;
    let end = open + 1 + name.len();
    assert forall|k: int| 0 <= k < open implies (#[trigger] pattern[k]) != '{' && pattern[k] != '}' by {
        assert(pattern[k] == lead[k]);
        assert(lead.contains(lead[k]));
    }
    assert(pattern[open] == '{');
    assert forall|k: int| open < k < end implies (#[trigger] pattern[k]) != '{' && pattern[k] != '}'
        && pattern[k] != '*' && pattern[k] != '/' by {
        assert(pattern[k] == name[k - open - 1]);
    }
    assert(pattern[end] == '}');
    assert(pattern[end + 1] == '{' && pattern[end + 2] == '{');
    lemma_literal_parameters(pattern, 0, open);
    assert(pattern[open + 1] == name[0]);
    assert(!doubled(pattern, open));
    lemma_plain_name_end(pattern, open + 2, end);
    assert(parameter_end(pattern, open) == Some(end));
    assert(doubled(pattern, end + 1));
}

} // verus!
