//! The polling loop as a state machine.
//!
//! The loop itself waits on the network, the store and the clock, so it is
//! driven from outside: the driver reports what happened as an [`Event`],
//! and [`PollLoop::step`] answers with the next thing to do.  Within the
//! processing phase the driver asks [`PollLoop::screen`] whether a post is to
//! be claimed, makes the claim, and hands its outcome to
//! [`PollLoop::settle`], which says whether a message goes out.

use vstd::prelude::*;
use crate::filter::{accept, accepts, texts, FilterConfig, FilterView};
use crate::model::{PostView, T3};
use crate::notify::{build_message, message_of, MessageView, WebhookMessage};
use crate::store::ClaimOutcome;

verus! {

/// Seconds between two cycles, whether the last one succeeded or not.
pub const POLL_INTERVAL_SECS: u64 = 60;

/// Where the loop stands.
#[derive(Clone, Copy, Debug, PartialEq, Eq, Structural)]
pub enum Phase {
    Idle,
    Fetching,
    Parsing,
    PerPostProcessing,
    Sleeping,
    Cancelling,
    Stopped,
}

/// What the driver reports.
#[derive(Clone, Copy, Debug, PartialEq, Eq, Structural)]
pub enum Event {
    /// A new iteration begins; `cancelled` says whether shutdown was asked for.
    Wake { cancelled: bool },
    /// The feed answered with this HTTP status.
    Responded { status: u16 },
    /// The feed could not be reached.
    FetchFailed,
    /// The body was decoded, or could not be.
    Parsed { ok: bool },
    /// Every post of the batch has been dealt with.
    BatchDone,
    /// The pause between two cycles is over.
    Slept,
    /// Everything held for the loop has been let go.
    Released,
}

/// What the driver is to do next.
#[derive(Clone, Copy, Debug, PartialEq, Eq, Structural)]
pub enum Action {
    /// Request the listing.
    Fetch,
    /// Decode the body of the response.
    Parse,
    /// Go through the posts of the listing in order.
    Process,
    /// Pause for this many seconds.
    Sleep { secs: u64 },
    /// Look for a shutdown signal and report `Wake`.
    Observe,
    /// Let go of what the loop holds.
    Release,
    /// Leave the loop.
    Exit,
    /// The event does not belong to the phase; nothing changes.
    Ignore,
}

/// A status in the range of success.
pub open spec fn is_success(status: u16) -> bool {
    200 <= status <= 299
}

/// The phase that follows `phase` on `event`, and what is to be done.
///
/// A shutdown is seen only when an iteration begins.  A fetch that fails, a
/// status outside the range of success, and a body that cannot be decoded,
/// each lead straight to the pause: no post of that cycle is processed.
pub open spec fn transition(phase: Phase, event: Event) -> (Phase, Action) {
    match (phase, event) {
        (Phase::Idle, Event::Wake { cancelled }) => if cancelled {
            (Phase::Cancelling, Action::Release)
        } else {
            (Phase::Fetching, Action::Fetch)
        },
        (Phase::Fetching, Event::Responded { status }) => if is_success(status) {
            (Phase::Parsing, Action::Parse)
        } else {
            (Phase::Sleeping, Action::Sleep { secs: POLL_INTERVAL_SECS })
        },
        (Phase::Fetching, Event::FetchFailed) => (
            Phase::Sleeping,
            Action::Sleep { secs: POLL_INTERVAL_SECS },
        ),
        (Phase::Parsing, Event::Parsed { ok }) => if ok {
            (Phase::PerPostProcessing, Action::Process)
        } else {
            (Phase::Sleeping, Action::Sleep { secs: POLL_INTERVAL_SECS })
        },
        (Phase::PerPostProcessing, Event::BatchDone) => (
            Phase::Sleeping,
            Action::Sleep { secs: POLL_INTERVAL_SECS },
        ),
        (Phase::Sleeping, Event::Slept) => (Phase::Idle, Action::Observe),
        (Phase::Cancelling, Event::Released) => (Phase::Stopped, Action::Exit),
        (Phase::Stopped, _) => (Phase::Stopped, Action::Exit),
        _ => (phase, Action::Ignore),
    }
}

/// What the loop carries from one iteration to the next.
#[derive(Debug)]
pub struct PollLoop {
    phase: Phase,
    first_cycle: bool,
    recent: Vec<String>,
}

/// The loop's state as a mathematical value.
pub struct LoopView {
    /// Where the loop stands.
    pub phase: Phase,
    /// No batch has been processed to its end since the start.
    pub first_cycle: bool,
    /// The identifiers that the store is known to hold already.
    pub recent: Set<Seq<char>>,
}

impl View for PollLoop {
    type V = LoopView;

    closed spec fn view(&self) -> LoopView {
        LoopView {
            phase: self.phase,
            first_cycle: self.first_cycle,
            recent: texts(self.recent@).to_set(),
        }
    }
}

/// What is to happen to a post before the store is asked.
#[derive(Clone, Copy, Debug, PartialEq, Eq, Structural)]
pub enum Screening {
    /// The filter chain turned the post down.
    Rejected,
    /// The post passed the filters, but its identifier is known to be stored.
    Known,
    /// The identifier is to be claimed.
    Claim,
}

/// What is to happen to a post after the store has answered.
#[derive(Debug)]
pub enum Delivery {
    /// The message is to be sent.
    Send(WebhookMessage),
    /// The post was claimed in the first cycle: it is recorded, not announced.
    Suppressed,
    /// Nothing is sent.
    Skip,
}

/// The message that a `Delivery` carries, if any.
pub open spec fn sent(delivery: Delivery) -> Option<MessageView> {
    match delivery {
        Delivery::Send(message) => Some(message@),
        _ => None,
    }
}

/// The state after `event`: the phase moves as `transition` says, and the
/// end of a batch ends the first cycle.
pub open spec fn stepped(state: LoopView, event: Event) -> LoopView {
    LoopView {
        phase: transition(state.phase, event).0,
        first_cycle: state.first_cycle && !(state.phase == Phase::PerPostProcessing && event
            == Event::BatchDone),
        recent: state.recent,
    }
}

/// The screening of `post` in `state`.
pub open spec fn screening_of(
    state: LoopView,
    post: PostView,
    now: int,
    config: FilterView,
) -> Screening {
    if !accepts(post, now, config) {
        Screening::Rejected
    } else if state.recent.contains(post.id) {
        Screening::Known
    } else {
        Screening::Claim
    }
}

/// The state after the claim on `post` came to `outcome`: an identifier that
/// the store held already joins the recent ones.
pub open spec fn settled(state: LoopView, post: PostView, outcome: ClaimOutcome) -> LoopView {
    LoopView {
        phase: state.phase,
        first_cycle: state.first_cycle,
        recent: if outcome == ClaimOutcome::AlreadyExists {
            state.recent.insert(post.id)
        } else {
            state.recent
        },
    }
}

/// The message that goes out after the claim on `post` came to `outcome`: one
/// for a post claimed after the first cycle, none otherwise.
pub open spec fn delivery_of(state: LoopView, post: PostView, outcome: ClaimOutcome) -> Option<
    MessageView,
> {
    if outcome == ClaimOutcome::Claimed && !state.first_cycle && post.url is Some {
        Some(message_of(post))
    } else {
        None
    }
}

/// Whether a response with this status counts as fetched.
pub fn status_is_success(status: u16) -> (ok: bool)
    ensures
        ok == is_success(status),
{
    200 <= status && status <= 299
}

impl PollLoop {
    /// The loop at process start: idle, in its first cycle, nothing known.
    pub fn new() -> (state: PollLoop)
        ensures
            state@ == (LoopView {
                phase: Phase::Idle,
                first_cycle: true,
                recent: Set::<Seq<char>>::empty(),
            }),
    {
        let state = PollLoop { phase: Phase::Idle, first_cycle: true, recent: Vec::new() };
        proof {
            assert(texts(state.recent@).to_set() =~= Set::<Seq<char>>::empty());
        }
        state
    }

    /// Where the loop stands.
    pub fn phase(&self) -> (phase: Phase)
        ensures
            phase == self@.phase,
    {
        self.phase
    }

    /// Whether no batch has been processed to its end yet.
    pub fn first_cycle(&self) -> (first: bool)
        ensures
            first == self@.first_cycle,
    {
        self.first_cycle
    }

    /// Whether `id` is among the identifiers known to be stored.
    pub fn is_known(&self, id: &String) -> (known: bool)
        ensures
            known == self@.recent.contains(id@),
    {
        let n: usize = self.recent.len();
        let mut i: usize = 0;
        while i < n
            invariant
                n == self.recent@.len(),
                i <= n,
                forall|j: int| 0 <= j < i ==> #[trigger] texts(self.recent@)[j] != id@,
            decreases n - i,
        {
            if self.recent[i] == *id {
                proof {
                    assert(texts(self.recent@)[i as int] == id@);
                }
                return true;
            }
            i = i + 1;
        }
        false
    }

    /// Takes the loop from one phase to the next.
    pub fn step(&mut self, event: Event) -> (action: Action)
        ensures
            final(self)@ == stepped(old(self)@, event),
            action == transition(old(self)@.phase, event).1,
    {
        let (next, action) = match (self.phase, event) {
            (Phase::Idle, Event::Wake { cancelled }) => {
                if cancelled {
                    (Phase::Cancelling, Action::Release)
                } else {
                    (Phase::Fetching, Action::Fetch)
                }
            },
            (Phase::Fetching, Event::Responded { status }) => {
                if status_is_success(status) {
                    (Phase::Parsing, Action::Parse)
                } else {
                    (Phase::Sleeping, Action::Sleep { secs: POLL_INTERVAL_SECS })
                }
            },
            (Phase::Fetching, Event::FetchFailed) => (
                Phase::Sleeping,
                Action::Sleep { secs: POLL_INTERVAL_SECS },
            ),
            (Phase::Parsing, Event::Parsed { ok }) => {
                if ok {
                    (Phase::PerPostProcessing, Action::Process)
                } else {
                    (Phase::Sleeping, Action::Sleep { secs: POLL_INTERVAL_SECS })
                }
            },
            (Phase::PerPostProcessing, Event::BatchDone) => {
                self.first_cycle = false;
                (Phase::Sleeping, Action::Sleep { secs: POLL_INTERVAL_SECS })
            },
            (Phase::Sleeping, Event::Slept) => (Phase::Idle, Action::Observe),
            (Phase::Cancelling, Event::Released) => (Phase::Stopped, Action::Exit),
            (Phase::Stopped, _) => (Phase::Stopped, Action::Exit),
            (phase, _) => (phase, Action::Ignore),
        };
        self.phase = next;
        action
    }

    /// Decides, before the store is asked, what is to happen to `post`: a
    /// post that the filter chain turns down never reaches the store, and one
    /// whose identifier is known to be stored is not claimed again.
    pub fn screen(&self, post: &T3, now: u64, config: &FilterConfig) -> (verdict: Screening)
        ensures
            verdict == screening_of(self@, post@, now as int, config@),
            verdict == Screening::Claim ==> accepts(post@, now as int, config@),
    {
        if !accept(post, now, config) {
            Screening::Rejected
        } else if self.is_known(&post.id) {
            Screening::Known
        } else {
            Screening::Claim
        }
    }

    /// Takes the outcome of the claim on `post` and decides on delivery.  A
    /// post claimed in the first cycle is recorded without a message; one
    /// claimed later gets its message; an identifier that the store held
    /// already is remembered; an error of the store passes the post over.
    pub fn settle(&mut self, post: &T3, outcome: ClaimOutcome) -> (delivery: Delivery)
        ensures
            final(self)@ == settled(old(self)@, post@, outcome),
            sent(delivery) == delivery_of(old(self)@, post@, outcome),
            delivery is Suppressed <==> outcome == ClaimOutcome::Claimed && old(self)@.first_cycle,
    {
        match outcome {
            ClaimOutcome::Claimed => {
                if self.first_cycle {
                    Delivery::Suppressed
                } else {
                    match build_message(post) {
                        Some(message) => Delivery::Send(message),
                        None => Delivery::Skip,
                    }
                }
            },
            ClaimOutcome::AlreadyExists => {
                self.recent.push(post.id.clone());
                proof {
                    let before = texts(old(self).recent@);
                    let after = texts(self.recent@);
                    assert(after =~= before.push(post.id@));
                    assert forall|x: Seq<char>| #[trigger]
                        after.contains(x) <==> before.contains(x) || x == post.id@ by {
                        if before.contains(x) {
                            let j = choose|j: int| 0 <= j < before.len() && before[j] == x;
                            assert(after[j] == x);
                        }
                        if x == post.id@ {
                            assert(after[before.len() as int] == x);
                        }
                    }
                    assert(after.to_set() =~= before.to_set().insert(post.id@));
                }
                Delivery::Skip
            },
            ClaimOutcome::StoreError => Delivery::Skip,
        }
    }
}

/// The state after the claims of a batch have been settled one after another.
pub open spec fn batch_state(state: LoopView, claims: Seq<(PostView, ClaimOutcome)>) -> LoopView
    decreases claims.len(),
{
    if claims.len() == 0 {
        state
    } else {
        settled(batch_state(state, claims.drop_last()), claims.last().0, claims.last().1)
    }
}

/// The messages that go out while the claims of a batch are settled one
/// after another, in their order.
pub open spec fn batch_deliveries(state: LoopView, claims: Seq<(PostView, ClaimOutcome)>) -> Seq<
    MessageView,
>
    decreases claims.len(),
{
    if claims.len() == 0 {
        Seq::empty()
    } else {
        let earlier = batch_deliveries(state, claims.drop_last());
        let before = batch_state(state, claims.drop_last());
        match delivery_of(before, claims.last().0, claims.last().1) {
            Some(message) => earlier.push(message),
            None => earlier,
        }
    }
}

/// Settling claims neither ends nor restarts the first cycle, leaves the
/// phase alone, and forgets no identifier.
pub proof fn lemma_batch_keeps_cycle(state: LoopView, claims: Seq<(PostView, ClaimOutcome)>)
    ensures
        batch_state(state, claims).first_cycle == state.first_cycle,
        batch_state(state, claims).phase == state.phase,
        state.recent.subset_of(batch_state(state, claims).recent),
    decreases claims.len(),
{
    if claims.len() > 0 {
        lemma_batch_keeps_cycle(state, claims.drop_last());
    }
}

/// Startup suppression: in the first cycle no message goes out, whatever the
/// posts are and whatever the store answers, and the cycle is still the first
/// one when the last claim is settled.
pub proof fn lemma_first_cycle_sends_nothing(
    state: LoopView,
    claims: Seq<(PostView, ClaimOutcome)>,
)
    requires
        state.first_cycle,
    ensures
        batch_deliveries(state, claims) == Seq::<MessageView>::empty(),
        batch_state(state, claims).first_cycle,
    decreases claims.len(),
{
    lemma_batch_keeps_cycle(state, claims);
    if claims.len() > 0 {
        lemma_first_cycle_sends_nothing(state, claims.drop_last());
        lemma_batch_keeps_cycle(state, claims.drop_last());
    }
}

/// The first cycle ends when its batch ends: from then on the loop is no
/// longer in its first cycle, whatever it was before.
pub proof fn lemma_batch_end_ends_first_cycle(state: LoopView)
    requires
        state.phase == Phase::PerPostProcessing,
    ensures
        !stepped(state, Event::BatchDone).first_cycle,
        stepped(state, Event::BatchDone).phase == Phase::Sleeping,
{
}

/// After the first cycle a newly claimed post that has an external address
/// sets off exactly one message, its own, after those of the claims before
/// it; a claim that came to anything else sets off none.
pub proof fn lemma_later_claim_sends_once(
    state: LoopView,
    claims: Seq<(PostView, ClaimOutcome)>,
    post: PostView,
    outcome: ClaimOutcome,
)
    requires
        !state.first_cycle,
        post.url is Some,
    ensures
        outcome == ClaimOutcome::Claimed ==> batch_deliveries(state, claims.push((post, outcome)))
            == batch_deliveries(state, claims).push(message_of(post)),
        outcome != ClaimOutcome::Claimed ==> batch_deliveries(state, claims.push((post, outcome)))
            == batch_deliveries(state, claims),
{
    let all = claims.push((post, outcome));
    assert(all.drop_last() =~= claims);
    assert(all.last() == (post, outcome));
    lemma_batch_keeps_cycle(state, claims);
}

/// Once the store has said of an identifier that it exists, no post with
/// that identifier is claimed again in this run, whatever was settled in
/// between.
pub proof fn lemma_known_is_not_claimed_again(
    state: LoopView,
    post: PostView,
    between: Seq<(PostView, ClaimOutcome)>,
    later: PostView,
    now: int,
    config: FilterView,
)
    requires
        later.id == post.id,
    ensures
        screening_of(
            batch_state(settled(state, post, ClaimOutcome::AlreadyExists), between),
            later,
            now,
            config,
        ) != Screening::Claim,
{
    let known = settled(state, post, ClaimOutcome::AlreadyExists);
    assert(known.recent.contains(post.id));
    lemma_batch_keeps_cycle(known, between);
}


/// The posts of a cycle are processed only after its listing was decoded: a
/// fetch that fails, a status outside the range of success and a body that
/// cannot be decoded each lead to the pause of the fixed length, and none of
/// them ends the first cycle.
pub proof fn lemma_failed_cycle_is_abandoned(state: LoopView, event: Event)
    ensures
        transition(state.phase, event).1 == Action::Process <==> state.phase == Phase::Parsing
            && event == (Event::Parsed { ok: true }),
        transition(state.phase, event).0 == Phase::PerPostProcessing ==> state.phase
            == Phase::PerPostProcessing || transition(state.phase, event).1 == Action::Process,
        state.phase == Phase::Fetching && (event == Event::FetchFailed || (exists|status: u16|
            event == (Event::Responded { status }) && !is_success(status))) ==> transition(
            state.phase,
            event,
        ) == (Phase::Sleeping, Action::Sleep { secs: 60 }),
        state.phase == Phase::Parsing && event == (Event::Parsed { ok: false }) ==> transition(
            state.phase,
            event,
        ) == (Phase::Sleeping, Action::Sleep { secs: 60 }),
        state.phase != Phase::PerPostProcessing ==> stepped(state, event).first_cycle
            == state.first_cycle,
{
}

/// A shutdown is acted on only where an iteration begins: the loop starts to
/// let go only from `Idle`, on a `Wake` that reports the signal; it leaves
/// only after that, and a stopped loop never starts again.
pub proof fn lemma_shutdown_between_cycles(state: LoopView, event: Event)
    ensures
        transition(state.phase, event).1 == Action::Release <==> state.phase == Phase::Idle
            && event == (Event::Wake { cancelled: true }),
        transition(state.phase, event).1 == Action::Exit <==> state.phase == Phase::Stopped || (
        state.phase == Phase::Cancelling && event == Event::Released),
        state.phase == Phase::Stopped ==> stepped(state, event).phase == Phase::Stopped,
        state.phase == Phase::Idle && event == (Event::Wake { cancelled: false }) ==> transition(
            state.phase,
            event,
        ) == (Phase::Fetching, Action::Fetch),
{
}

} // verus!
