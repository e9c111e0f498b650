//! One cycle as a whole, as a model: the decisions of the loop set against a
//! table that keeps its uniqueness constraint and answers every insert.
//!
//! Nothing here runs.  The functions say what a driver brings about that
//! screens each post, claims where it is told to, and settles with the answer
//! of the table; the lemmas say what then holds of the table and of the
//! messages that go out.

use vstd::prelude::*;
use crate::filter::{accepts, FilterView};
use crate::model::PostView;
use crate::notify::{message_of, MessageView};
use crate::poll::{delivery_of, screening_of, settled, LoopView, Screening};
use crate::store::{outcome_of, unique_insert};

verus! {

/// The loop, the table, and the messages sent so far.
pub struct CycleView {
    pub state: LoopView,
    pub rows: Set<Seq<char>>,
    pub sent: Seq<MessageView>,
}

/// The identifiers that the loop takes for stored are stored.
pub open spec fn coherent(c: CycleView) -> bool {
    c.state.recent.subset_of(c.rows)
}

/// One post through screening, claim and settlement.
pub open spec fn process_one(c: CycleView, post: PostView, now: int, config: FilterView) -> CycleView {
    if screening_of(c.state, post, now, config) == Screening::Claim {
        let inserted = unique_insert(c.rows, post.id);
        let outcome = outcome_of(inserted.0);
        CycleView {
            state: settled(c.state, post, outcome),
            rows: inserted.1,
            sent: match delivery_of(c.state, post, outcome) {
                Some(message) => c.sent.push(message),
                None => c.sent,
            },
        }
    } else {
        c
    }
}

/// The posts of a batch through `process_one`, in source order.
pub open spec fn process_all(
    c: CycleView,
    posts: Seq<PostView>,
    now: int,
    config: FilterView,
) -> CycleView
    decreases posts.len(),
{
    if posts.len() == 0 {
        c
    } else {
        process_one(process_all(c, posts.drop_last(), now, config), posts.last(), now, config)
    }
}

/// A post that the filter chain turns down leaves no trace: it is not
/// claimed, not stored and not announced.
pub proof fn lemma_rejected_post_leaves_no_trace(
    c: CycleView,
    post: PostView,
    now: int,
    config: FilterView,
)
    requires
        !accepts(post, now, config),
    ensures
        process_one(c, post, now, config) == c,
{
}

/// A post whose identifier the table holds is never announced and changes
/// nothing in the table, whatever the loop remembers: not in this run and
/// not after a restart.
pub proof fn lemma_stored_post_is_not_announced(
    c: CycleView,
    post: PostView,
    now: int,
    config: FilterView,
)
    requires
        c.rows.contains(post.id),
    ensures
        process_one(c, post, now, config).sent == c.sent,
        process_one(c, post, now, config).rows == c.rows,
        c.state.recent.subset_of(process_one(c, post, now, config).state.recent),
{
}

/// Processing a batch loses nothing: the table and the remembered
/// identifiers only grow, the loop stays in its cycle and phase, and what it
/// remembers stays within what the table holds.
pub proof fn lemma_batch_only_adds(
    c: CycleView,
    posts: Seq<PostView>,
    now: int,
    config: FilterView,
)
    requires
        coherent(c),
    ensures
        coherent(process_all(c, posts, now, config)),
        c.rows.subset_of(process_all(c, posts, now, config).rows),
        c.state.recent.subset_of(process_all(c, posts, now, config).state.recent),
        process_all(c, posts, now, config).state.first_cycle == c.state.first_cycle,
        process_all(c, posts, now, config).state.phase == c.state.phase,
        c.sent.is_prefix_of(process_all(c, posts, now, config).sent),
    decreases posts.len(),
{
    if posts.len() > 0 {
        lemma_batch_only_adds(c, posts.drop_last(), now, config);
    }
}

/// Startup suppression over a whole batch: in the first cycle every post
/// that passes the filters is in the table afterwards, and no message has
/// gone out.
pub proof fn lemma_first_cycle_records_silently(
    c: CycleView,
    posts: Seq<PostView>,
    now: int,
    config: FilterView,
)
    requires
        c.state.first_cycle,
        coherent(c),
    ensures
        process_all(c, posts, now, config).sent == c.sent,
        forall|i: int|
            0 <= i < posts.len() && accepts(#[trigger] posts[i], now, config) ==> process_all(
                c,
                posts,
                now,
                config,
            ).rows.contains(posts[i].id),
    decreases posts.len(),
{
    if posts.len() > 0 {
        let before = process_all(c, posts.drop_last(), now, config);
        lemma_first_cycle_records_silently(c, posts.drop_last(), now, config);
        lemma_batch_only_adds(c, posts.drop_last(), now, config);
        let after = process_one(before, posts.last(), now, config);
        assert(before.rows.subset_of(after.rows));
        assert forall|i: int| 0 <= i < posts.len() && accepts(#[trigger] posts[i], now, config)
            implies after.rows.contains(posts[i].id) by {
            if i < posts.len() - 1 {
                assert(posts.drop_last()[i] == posts[i]);
            }
        }
    }
}

/// After the first cycle, a post that passes the filters and is new to the
/// table is stored and announced exactly once: the first pass adds its
/// identifier and its message; the next pass finds the identifier stored,
/// remembers it and sends nothing; every pass after that changes nothing.
pub proof fn lemma_new_post_is_announced_once(
    c: CycleView,
    post: PostView,
    now: int,
    config: FilterView,
)
    requires
        !c.state.first_cycle,
        coherent(c),
        accepts(post, now, config),
        !c.rows.contains(post.id),
    ensures
        process_one(c, post, now, config).rows == c.rows.insert(post.id),
        process_one(c, post, now, config).sent == c.sent.push(message_of(post)),
        ({
            let first = process_one(c, post, now, config);
            let second = process_one(first, post, now, config);
            &&& second.rows == first.rows
            &&& second.sent == first.sent
            &&& second.state.recent.contains(post.id)
            &&& process_one(second, post, now, config) == second
        }),
{
}

} // verus!
