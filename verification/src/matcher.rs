//! The path matcher, `matchit::Router`, as this library sees it.
//!
//! Nothing in this file is proved. The matcher's patterns, its conflict rules
//! and its precedence are its own; the contracts below give them names and say
//! of them only what the matcher's source shows.

use vstd::prelude::*;

use crate::context::params_view;
use crate::error::{RouteError, RouteErrorView};
use crate::route::within_limit;
use matchit::Router as Matcher;

verus! {

/// `matchit::Router`, the matcher.
#[verifier::external_type_specification]
#[verifier::external_body]
#[verifier::reject_recursive_types(T)]
pub struct ExMatcher<T>(Matcher<T>);

/// The routes that a matcher holds: each pattern with the slot number stored
/// under it, in the order in which they were inserted.
pub uninterp spec fn matcher_routes(m: Matcher<usize>) -> Seq<(Seq<char>, usize)>;

/// What `matchit::Router::insert` answers when `pattern` is offered to a
/// matcher that holds `routes`: `None` where it takes the pattern, else the
/// reason for which it refuses it.
pub uninterp spec fn insert_outcome(routes: Seq<(Seq<char>, usize)>, pattern: Seq<char>) -> Option<
    RouteErrorView,
>;

/// What `matchit::Router::at` finds for `path` in a matcher that holds
/// `routes`: the slot stored under the matching route and the captured
/// parameters, each a name and a value, in the order of the pattern's
/// placeholders; `None` where no route matches.
pub uninterp spec fn lookup(routes: Seq<(Seq<char>, usize)>, path: Seq<char>) -> Option<
    (usize, Seq<(Seq<char>, Seq<char>)>),
>;

/// Whether `pattern` is the pattern of one of `routes`.
pub open spec fn holds_pattern(routes: Seq<(Seq<char>, usize)>, pattern: Seq<char>) -> bool {
    exists|i: int| 0 <= i < routes.len() && (#[trigger] routes[i]).0 == pattern
}

/// `matchit::Router::new`: a matcher without routes.
#[verifier::external_body]
pub(crate) fn matcher_new() -> (m: Matcher<usize>)
    ensures
        matcher_routes(m) == Seq::<(Seq<char>, usize)>::empty(),
{
    Matcher::new()
}

/// `Clone::clone` of `matchit::Router`: the copy holds the same routes.
#[verifier::external_body]
pub(crate) fn matcher_clone(m: &Matcher<usize>) -> (copy: Matcher<usize>)
    ensures
        matcher_routes(copy) == matcher_routes(*m),
{
    m.clone()
}

/// `matchit::Router::insert`: the answer is the one named by
/// [`insert_outcome`]; where the pattern is taken the matcher holds one route
/// more, the last. A pattern equal to one that the matcher holds is refused
/// as a conflict. Of a matcher that refused a pattern nothing is said.
///
/// The matcher panics on a pattern in which it finds 26 named parameters.
/// It finds each of them at an opening brace of its own that is single, or
/// that is doubled and stands behind a single one, so in a pattern within
/// the limit it finds fewer.
#[verifier::external_body]
pub(crate) fn matcher_insert(m: &mut Matcher<usize>, pattern: &str, slot: usize) -> (r:
    Result<(), RouteError>)
    requires
        within_limit(pattern@),
    ensures
        r matches Ok(_) ==> insert_outcome(matcher_routes(*old(m)), pattern@) is None,
        r matches Err(e) ==> insert_outcome(matcher_routes(*old(m)), pattern@) == Some(e@),
        r is Ok ==> matcher_routes(*final(m)) == matcher_routes(*old(m)).push((pattern@, slot)),
        holds_pattern(matcher_routes(*old(m)), pattern@) ==> r matches Err(
            RouteError::Conflict { .. },
        ),
{
    m.insert(pattern, slot).map_err(
        |e| match e {
            matchit::InsertError::Conflict { with } => RouteError::Conflict { with },
            matchit::InsertError::InvalidParamSegment => RouteError::InvalidParamSegment,
            matchit::InsertError::InvalidParam => RouteError::InvalidParam,
            matchit::InsertError::InvalidCatchAll => RouteError::InvalidCatchAll,
            _ => RouteError::Unrecognized,
        },
    )
}

/// `matchit::Router::at`: the answer is the one named by [`lookup`], and a
/// slot that it gives is one that was inserted.
#[verifier::external_body]
pub(crate) fn matcher_at(m: &Matcher<usize>, path: &str) -> (r: Option<
    (usize, Vec<(String, String)>),
>)
    ensures
        match r {
            Some((slot, params)) => lookup(matcher_routes(*m), path@) == Some(
                (slot, params_view(params@)),
            ),
            None => lookup(matcher_routes(*m), path@) is None,
        },
        r matches Some((slot, _)) ==> exists|i: int|
            0 <= i < matcher_routes(*m).len() && (#[trigger] matcher_routes(*m)[i]).1 == slot,
{
    match m.at(path) {
        Ok(found) => Some(
            (
                *found.value,
                found.params.iter().map(|(k, v)| (k.to_string(), v.to_string())).collect(),
            ),
        ),
        Err(_) => None,
    }
}

} // verus!
