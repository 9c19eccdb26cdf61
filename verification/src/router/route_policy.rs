//! Per-route fallback strategy classification.
//!
//! Inference routes (`/v1/*embeddings*`) use a hedged race: GPU first, then
//! CPU in parallel once the hedge delay has passed. Control-plane routes
//! (`/health`, `/v1/models`, anything else) try GPU, then CPU, each under a
//! hard timeout.

use vstd::prelude::*;

use crate::config::Config;
use crate::text;
use crate::text::{cut_at, has_prefix, has_text};
use crate::time::Duration;

verus! {

/// Strategy for a given request.
#[derive(Debug, Clone, Copy, PartialEq, Eq, Structural)]
pub enum RoutePolicy {
    /// Start GPU; after `delay`, fire CPU in parallel; the first response
    /// outside the 5xx class wins.
    Hedged {
        /// Delay before the parallel CPU race fires.
        delay: Duration,
    },
    /// Sequential GPU then CPU with a hard timeout per upstream.
    SequentialTimeout {
        /// Per-upstream hard timeout.
        per_upstream: Duration,
    },
}

impl RoutePolicy {
    /// The strategy for a request path.
    pub open spec fn of_path(path_and_query: Seq<char>, config: Config) -> Self {
        if is_inference(path_and_query) {
            RoutePolicy::Hedged { delay: config.hedge_delay }
        } else {
            RoutePolicy::SequentialTimeout { per_upstream: config.control_timeout }
        }
    }

    /// Classify the request path and return the fallback strategy to apply.
    #[must_use]
    pub fn for_path(path_and_query: &str, config: &Config) -> (policy: Self)
        ensures
            policy == Self::of_path(path_and_query@, *config),
    {
        if is_inference_path(path_and_query) {
            RoutePolicy::Hedged { delay: config.hedge_delay }
        } else {
            RoutePolicy::SequentialTimeout { per_upstream: config.control_timeout }
        }
    }
}

/// The path, without its query, begins with `/v1/` and holds `embeddings`.
pub open spec fn is_inference(path_and_query: Seq<char>) -> bool {
    let path = text::before_mark(path_and_query, '?');
    text::begins_with(path, "/v1/"@) && text::holds_text(path, "embeddings"@)
}

/// Returns `true` if the path should be hedged.
pub fn is_inference_path(path_and_query: &str) -> (inference: bool)
    ensures
        inference == is_inference(path_and_query@),
{
    let path = cut_at(path_and_query, '?');
    has_prefix(path, "/v1/") && has_text(path, "embeddings")
}

/// The query string has no say in the strategy: a path is classified alike
/// with any query and without one.
pub proof fn query_does_not_matter(path: Seq<char>, query: Seq<char>, config: Config)
    requires
        !path.contains('?'),
    ensures
        RoutePolicy::of_path(path + seq!['?'] + query, config) == RoutePolicy::of_path(path, config),
{
    let whole = path + seq!['?'] + query;
    whole.index_of_first_ensures('?');
    path.index_of_first_ensures('?');
    assert(whole[path.len() as int] == '?');
    assert(whole.contains('?'));
    let at = whole.index_of_first('?')->0;
    if at < path.len() {
        assert(path[at] == '?');
    }
    assert(at == path.len());
    assert(whole.take(at) =~= path);
}

/// Every path of the shape `/v1/` … `embeddings` … is an inference path.
pub proof fn embeddings_paths_are_inference(before: Seq<char>, after: Seq<char>)
    requires
        !before.contains('?'),
        !after.contains('?'),
    ensures
        is_inference("/v1/"@ + before + "embeddings"@ + after),
{
    reveal_strlit("/v1/");
    reveal_strlit("embeddings");
    let path = "/v1/"@ + before + "embeddings"@ + after;
    path.index_of_first_ensures('?');
    assert(!path.contains('?')) by {
        if path.contains('?') {
            let i = path.index_of('?');
            assert(path[i] == '?');
            if i < 4 {
                assert("/v1/"@[i] != '?');
            } else if i < 4 + before.len() {
                assert(before[i - 4] == '?');
            } else if i < 4 + before.len() + 10 {
                assert("embeddings"@[i - 4 - before.len()] != '?');
            } else {
                assert(after[i - 4 - before.len() - 10] == '?');
            }
        }
    }
    assert(path.subrange(0, 4) =~= "/v1/"@);
    let at = 4 + before.len() as int;
    assert(path.subrange(at, at + 10) =~= "embeddings"@);
    assert(text::stands_at(path, "embeddings"@, at));
}

/// A path without a query is an inference path exactly when it reads `/v1/`,
/// then anything, then `embeddings`, then anything.
pub proof fn inference_paths(path: Seq<char>)
    requires
        !path.contains('?'),
    ensures
        is_inference(path) <==> exists|before: Seq<char>, after: Seq<char>|
            path == #[trigger] ("/v1/"@ + before + "embeddings"@ + after),
{
    path.index_of_first_ensures('?');
    reveal_strlit("/v1/");
    reveal_strlit("embeddings");
    if is_inference(path) {
        let at = choose|at: int| #[trigger] text::stands_at(path, "embeddings"@, at);
        assert(path.subrange(0, 4) =~= "/v1/"@);
        assert(path.subrange(at, at + 10) =~= "embeddings"@);
        assert(path[at] == path.subrange(at, at + 10)[0]);
        assert(path[at] == 'e');
        if at < 4 {
            assert(path[at] == path.subrange(0, 4)[at]);
            assert(at == 0 || at == 1 || at == 2 || at == 3);
        }
        let before = path.subrange(4, at);
        let after = path.skip(at + 10);
        assert(path =~= "/v1/"@ + before + "embeddings"@ + after);
    }
    if exists|before: Seq<char>, after: Seq<char>|
        path == #[trigger] ("/v1/"@ + before + "embeddings"@ + after) {
        let (before, after) = choose|before: Seq<char>, after: Seq<char>|
            path == #[trigger] ("/v1/"@ + before + "embeddings"@ + after);
        assert(path.subrange(0, 4) =~= "/v1/"@);
        let at = 4 + before.len() as int;
        assert(path.subrange(at, at + 10) =~= "embeddings"@);
        assert(text::stands_at(path, "embeddings"@, at));
    }
}

/// Inference paths are hedged with the configured delay; all others are tried
/// in sequence with the configured timeout.
pub proof fn strategies_take_their_budget_from_the_configuration(
    path_and_query: Seq<char>,
    config: Config,
)
    ensures
        match RoutePolicy::of_path(path_and_query, config) {
            RoutePolicy::Hedged { delay } => is_inference(path_and_query) && delay
                == config.hedge_delay,
            RoutePolicy::SequentialTimeout { per_upstream } => !is_inference(path_and_query)
                && per_upstream == config.control_timeout,
        },
{
}

}
