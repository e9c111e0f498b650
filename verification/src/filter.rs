//! The filter chain: which posts qualify for delivery.

use vstd::prelude::*;
use crate::model::{PostView, T3};

verus! {

/// Posts older than this many seconds are not considered.
pub const MAX_AGE_SECS: u64 = 604800;

/// The score a post needs where nothing else is configured.
pub const MIN_UPVOTES: i32 = 100;

/// The limits that the filter chain applies.
#[derive(Clone, Debug)]
pub struct FilterConfig {
    /// The lowest score that qualifies.
    pub min_score: i32,
    /// Texts that the external address of a qualifying post must not contain.
    pub banned: Vec<String>,
}

/// A filter configuration as a mathematical value.
pub struct FilterView {
    pub min_score: int,
    pub banned: Seq<Seq<char>>,
}

/// The texts of a sequence of strings, in order.
pub open spec fn texts(strings: Seq<String>) -> Seq<Seq<char>> {
    strings.map_values(|s: String| s@)
}

impl View for FilterConfig {
    type V = FilterView;

    open spec fn view(&self) -> FilterView {
        FilterView { min_score: self.min_score as int, banned: texts(self.banned@) }
    }
}

/// The banned texts where nothing else is configured.
pub open spec fn default_banned() -> Seq<Seq<char>> {
    seq!["reddit.com"@, "redd.it"@, "f1-insider.com"@]
}

/// `needle` stands somewhere in `hay`, character for character.
pub open spec fn is_substring(hay: Seq<char>, needle: Seq<char>) -> bool {
    exists|i: int|
        0 <= i && i + needle.len() <= hay.len() && #[trigger] hay.subrange(
            i,
            i + needle.len(),
        ) == needle
}

/// `url` contains at least one of the `banned` texts.
pub open spec fn is_banned(url: Seq<char>, banned: Seq<Seq<char>>) -> bool {
    exists|k: int| 0 <= k < banned.len() && is_substring(url, #[trigger] banned[k])
}

/// A post created at `created` is past the age window at `now`.
pub open spec fn too_old(created: int, now: int) -> bool {
    now - created > MAX_AGE_SECS
}

/// The whole filter chain: the post is inside the age window, its score
/// reaches the threshold, it has an external address, and that address
/// contains no banned text.
pub open spec fn accepts(post: PostView, now: int, config: FilterView) -> bool {
    &&& !too_old(post.created, now)
    &&& post.score >= config.min_score
    &&& post.url is Some
    &&& !is_banned(post.url->Some_0, config.banned)
}

/// `str::contains` with a string as the pattern: whether the pattern matches
/// a part of the text.  Believed of std: the answer is yes exactly when the
/// characters of `needle` stand in `hay` in one piece.
#[verifier::external_body]
fn str_contains(hay: &str, needle: &str) -> (found: bool)
    ensures
        found == is_substring(hay@, needle@),
{
    hay.contains(needle)
}

impl FilterConfig {
    /// A configuration with the given threshold and banned texts.
    pub fn new(min_score: i32, banned: Vec<String>) -> (config: FilterConfig)
        ensures
            config.min_score == min_score,
            config.banned == banned,
            config@.min_score == min_score,
            config@.banned == texts(banned@),
    {
        FilterConfig { min_score, banned }
    }

    /// The configuration that applies where none is given: a threshold of
    /// 100 and the platform's own hosts among the banned texts.
    pub fn standard() -> (config: FilterConfig)
        ensures
            config@.min_score == 100,
            config@.banned == default_banned(),
    {
        let mut banned: Vec<String> = Vec::new();
        banned.push(String::from_str("reddit.com"));
        banned.push(String::from_str("redd.it"));
        banned.push(String::from_str("f1-insider.com"));
        proof {
            assert(texts(banned@) =~= default_banned());
        }
        FilterConfig { min_score: MIN_UPVOTES, banned }
    }
}

/// Whether `url` contains one of the `banned` texts.
pub fn url_is_banned(url: &str, banned: &Vec<String>) -> (hit: bool)
    ensures
        hit == is_banned(url@, texts(banned@)),
{
    let n: usize = banned.len();
    let mut k: usize = 0;
    while k < n
        invariant
            n == banned@.len(),
            k <= n,
            forall|j: int| 0 <= j < k ==> !is_substring(url@, #[trigger] texts(banned@)[j]),
        decreases n - k,
    {
        if str_contains(url, banned[k].as_str()) {
            proof {
                assert(is_substring(url@, texts(banned@)[k as int]));
            }
            return true;
        }
        k = k + 1;
    }
    false
}

/// Whether a post created at `created` is past the age window at `now`.
pub fn is_stale(created: u64, now: u64) -> (stale: bool)
    ensures
        stale == too_old(created as int, now as int),
{
    now > created && now - created > MAX_AGE_SECS
}

/// The filter chain on one post.  The answer is that of `accepts`; in
/// particular a post without an external address, one past the age window,
/// one under the threshold and one whose address contains a banned text are
/// each turned down whatever their other fields hold.
pub fn accept(post: &T3, now: u64, config: &FilterConfig) -> (ok: bool)
    ensures
        ok == accepts(post@, now as int, config@),
        post@.url is None ==> !ok,
        now - post@.created > MAX_AGE_SECS ==> !ok,
        post@.score < config@.min_score ==> !ok,
        post@.url is Some && is_banned(post@.url->Some_0, config@.banned) ==> !ok,
{
    if is_stale(post.created_utc, now) {
        return false;
    }
    if post.score < config.min_score {
        return false;
    }
    match &post.url {
        None => false,
        Some(url) => !url_is_banned(url.as_str(), &config.banned),
    }
}

} // verus!
