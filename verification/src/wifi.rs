//! The link supervisor: keeps the station associated, whatever the radio does.

use vstd::prelude::*;

verus! {

/// How long the supervisor waits after a failed connect, and after a drop,
/// before it tries again, in milliseconds.
pub const BACKOFF_MILLIS: u64 = 5000;

/// The state of the link, as far as others may know it.
#[derive(Clone, Copy, Debug, PartialEq, Eq, Structural)]
pub enum LinkState {
    Disconnected,
    Connecting,
    Connected,
}

/// Where the supervisor stands in its cycle: what it has asked for and is
/// waiting on.
#[derive(Clone, Copy, Debug, PartialEq, Eq, Structural)]
pub enum Stage {
    /// Asking the radio whether it is associated. Carries the link state
    /// held until the answer comes.
    Observing(LinkState),
    /// Associated, and waiting for the radio to report a drop.
    Associated,
    /// The link dropped; the backoff runs.
    Recovering,
    /// Asking whether the radio has been started.
    Probing,
    /// The credentials are being applied and the radio started.
    Starting,
    /// A connect request is outstanding.
    Joining,
    /// The connect request failed; the backoff runs.
    Retrying,
}

/// What the radio, or the clock, reports back.
#[derive(Clone, Copy, Debug, PartialEq, Eq, Structural)]
pub enum LinkEvent {
    /// Whether the radio is associated.
    Association(bool),
    /// The radio reported a drop of the link.
    Dropped,
    /// The backoff is over.
    Elapsed,
    /// Whether the radio has been started.
    Started(bool),
    /// The credentials were applied and the radio was started.
    StartDone,
    /// Whether the connect request succeeded.
    Joined(bool),
}

/// What the supervisor asks for next.
#[derive(Clone, Copy, Debug, PartialEq, Eq, Structural)]
pub enum LinkAction {
    /// Ask the radio whether it is associated.
    QueryAssociation,
    /// Wait until the radio reports a drop.
    AwaitDrop,
    /// Wait this many milliseconds.
    Backoff(u64),
    /// Ask the radio whether it has been started.
    QueryStarted,
    /// Apply the station credentials and start the radio.
    StartRadio,
    /// Issue a connect request.
    Connect,
    /// Nothing new: the event answered nothing that was asked. What was
    /// asked before is still awaited.
    Wait,
}

/// The link state that goes with a stage.
pub open spec fn spec_link_state(stage: Stage) -> LinkState {
    match stage {
        Stage::Observing(held) => held,
        Stage::Associated => LinkState::Connected,
        Stage::Recovering => LinkState::Disconnected,
        Stage::Probing | Stage::Starting | Stage::Joining | Stage::Retrying => LinkState::Connecting,
    }
}

/// The stage a supervisor begins in: disconnected, about to look at the radio.
pub open spec fn initial() -> Stage {
    Stage::Observing(LinkState::Disconnected)
}

/// The action whose outcome a supervisor in `stage` is waiting on.
pub open spec fn spec_pending(stage: Stage) -> LinkAction {
    match stage {
        Stage::Observing(_) => LinkAction::QueryAssociation,
        Stage::Associated => LinkAction::AwaitDrop,
        Stage::Recovering | Stage::Retrying => LinkAction::Backoff(BACKOFF_MILLIS),
        Stage::Probing => LinkAction::QueryStarted,
        Stage::Starting => LinkAction::StartRadio,
        Stage::Joining => LinkAction::Connect,
    }
}

/// Whether `event` is an outcome of the action that `stage` waits on.
pub open spec fn answers(stage: Stage, event: LinkEvent) -> bool {
    match (stage, event) {
        (Stage::Observing(_), LinkEvent::Association(_)) => true,
        (Stage::Associated, LinkEvent::Dropped) => true,
        (Stage::Recovering, LinkEvent::Elapsed) => true,
        (Stage::Probing, LinkEvent::Started(_)) => true,
        (Stage::Starting, LinkEvent::StartDone) => true,
        (Stage::Joining, LinkEvent::Joined(_)) => true,
        (Stage::Retrying, LinkEvent::Elapsed) => true,
        _ => false,
    }
}

/// The stage that follows `stage` on `event`.
///
/// An associated radio is watched for a drop; after a drop the backoff runs
/// before anything else. A radio that is not associated is started, unless
/// it is started already, and then asked to connect, whatever became of the
/// attempt before. A failed connect is followed by the backoff, a successful
/// one by a look at the radio. An event that answers nothing that was asked
/// changes nothing.
pub open spec fn next_stage(stage: Stage, event: LinkEvent) -> Stage {
    match (stage, event) {
        (Stage::Observing(_), LinkEvent::Association(true)) => Stage::Associated,
        (Stage::Observing(_), LinkEvent::Association(false)) => Stage::Probing,
        (Stage::Associated, LinkEvent::Dropped) => Stage::Recovering,
        (Stage::Recovering, LinkEvent::Elapsed) => Stage::Probing,
        (Stage::Probing, LinkEvent::Started(true)) => Stage::Joining,
        (Stage::Probing, LinkEvent::Started(false)) => Stage::Starting,
        (Stage::Starting, LinkEvent::StartDone) => Stage::Joining,
        (Stage::Joining, LinkEvent::Joined(true)) => Stage::Observing(LinkState::Connected),
        (Stage::Joining, LinkEvent::Joined(false)) => Stage::Retrying,
        (Stage::Retrying, LinkEvent::Elapsed) => Stage::Observing(LinkState::Connecting),
        _ => stage,
    }
}

/// The action that a supervisor in `stage` asks for on `event`: what the
/// stage it moves to waits on, or [`LinkAction::Wait`] where it does not move.
pub open spec fn next_action(stage: Stage, event: LinkEvent) -> LinkAction {
    if answers(stage, event) {
        spec_pending(next_stage(stage, event))
    } else {
        LinkAction::Wait
    }
}

/// The stage reached from `stage` by `events`, in order.
pub open spec fn stage_after(stage: Stage, events: Seq<LinkEvent>) -> Stage
    decreases events.len(),
{
    if events.len() == 0 {
        stage
    } else {
        next_stage(stage_after(stage, events.drop_last()), events.last())
    }
}

/// How many times the supervisor asks for `action` while `events` come in,
/// in order, from `stage` on.
pub open spec fn asked(stage: Stage, events: Seq<LinkEvent>, action: LinkAction) -> nat
    decreases events.len(),
{
    if events.len() == 0 {
        0
    } else {
        let before = events.drop_last();
        asked(stage, before, action) + if next_action(stage_after(stage, before), events.last())
            == action {
            1nat
        } else {
            0nat
        }
    }
}

/// How many connect results the supervisor takes while `events` come in, in
/// order, from `stage` on.
pub open spec fn settled(stage: Stage, events: Seq<LinkEvent>) -> nat
    decreases events.len(),
{
    if events.len() == 0 {
        0
    } else {
        let before = events.drop_last();
        settled(stage, before) + if stage_after(stage, before) is Joining
            && events.last() is Joined {
            1nat
        } else {
            0nat
        }
    }
}

/// The number of connect requests outstanding in `stage`.
pub open spec fn outstanding(stage: Stage) -> nat {
    if stage is Joining {
        1
    } else {
        0
    }
}

/// The supervisor of the wireless link.
#[derive(Debug)]
pub struct WifiLink {
    stage: Stage,
}

impl View for WifiLink {
    type V = Stage;

    closed spec fn view(&self) -> Stage {
        self.stage
    }
}

impl WifiLink {
    /// A supervisor that holds the link to be down and has yet to look at
    /// the radio.
    pub fn new() -> (link: WifiLink)
        ensures
            link@ == initial(),
    {
        WifiLink { stage: Stage::Observing(LinkState::Disconnected) }
    }

    /// The stage the supervisor is in.
    pub fn stage(&self) -> (stage: Stage)
        ensures
            stage == self@,
    {
        self.stage
    }

    /// The state of the link.
    pub fn link_state(&self) -> (state: LinkState)
        ensures
            state == spec_link_state(self@),
    {
        match self.stage {
            Stage::Observing(held) => held,
            Stage::Associated => LinkState::Connected,
            Stage::Recovering => LinkState::Disconnected,
            Stage::Probing | Stage::Starting | Stage::Joining | Stage::Retrying => {
                LinkState::Connecting
            },
        }
    }

    /// Whether the link is up.
    pub fn is_up(&self) -> (up: bool)
        ensures
            up == (spec_link_state(self@) == LinkState::Connected),
    {
        match self.link_state() {
            LinkState::Connected => true,
            _ => false,
        }
    }

    /// The action whose outcome the supervisor is waiting on.
    pub fn pending(&self) -> (action: LinkAction)
        ensures
            action == spec_pending(self@),
    {
        match self.stage {
            Stage::Observing(_) => LinkAction::QueryAssociation,
            Stage::Associated => LinkAction::AwaitDrop,
            Stage::Recovering | Stage::Retrying => LinkAction::Backoff(BACKOFF_MILLIS),
            Stage::Probing => LinkAction::QueryStarted,
            Stage::Starting => LinkAction::StartRadio,
            Stage::Joining => LinkAction::Connect,
        }
    }

    /// Takes one event and says what to do next.
    pub fn connection(&mut self, event: LinkEvent) -> (action: LinkAction)
        ensures
            final(self)@ == next_stage(old(self)@, event),
            action == next_action(old(self)@, event),
    {
        let next = match (self.stage, event) {
            (Stage::Observing(_), LinkEvent::Association(associated)) => {
                if associated {
                    Stage::Associated
                } else {
                    Stage::Probing
                }
            },
            (Stage::Associated, LinkEvent::Dropped) => Stage::Recovering,
            (Stage::Recovering, LinkEvent::Elapsed) => Stage::Probing,
            (Stage::Probing, LinkEvent::Started(started)) => {
                if started {
                    Stage::Joining
                } else {
                    Stage::Starting
                }
            },
            (Stage::Starting, LinkEvent::StartDone) => Stage::Joining,
            (Stage::Joining, LinkEvent::Joined(joined)) => {
                if joined {
                    Stage::Observing(LinkState::Connected)
                } else {
                    Stage::Retrying
                }
            },
            (Stage::Retrying, LinkEvent::Elapsed) => Stage::Observing(LinkState::Connecting),
            _ => {
                return LinkAction::Wait;
            },
        };
        self.stage = next;
        self.pending()
    }
}

/// The events that a radio which never fails gives a supervisor that starts
/// out disconnected: not associated; started or not, and if not, then
/// started on request; connected on request.
pub open spec fn unfailing_radio(started: bool) -> Seq<LinkEvent> {
    if started {
        seq![LinkEvent::Association(false), LinkEvent::Started(true), LinkEvent::Joined(true)]
    } else {
        seq![
            LinkEvent::Association(false),
            LinkEvent::Started(false),
            LinkEvent::StartDone,
            LinkEvent::Joined(true),
        ]
    }
}

/// With a radio that never fails, a supervisor that starts out disconnected
/// is connected at the end of its first cycle: it has asked to connect once
/// and has never had to back off.
pub proof fn lemma_connects_within_one_cycle(started: bool)
    ensures
        spec_link_state(stage_after(initial(), unfailing_radio(started))) == LinkState::Connected,
        asked(initial(), unfailing_radio(started), LinkAction::Connect) == 1,
        asked(initial(), unfailing_radio(started), LinkAction::Backoff(BACKOFF_MILLIS)) == 0,
{
    let connect = LinkAction::Connect;
    let backoff = LinkAction::Backoff(BACKOFF_MILLIS);
    if started {
        let three = unfailing_radio(started);
        let two = three.drop_last();
        let one = two.drop_last();
        let none = one.drop_last();
        assert(none.len() == 0);
        assert(stage_after(initial(), none) == initial());
        assert(stage_after(initial(), one) == Stage::Probing);
        assert(stage_after(initial(), two) == Stage::Joining);
        assert(asked(initial(), none, connect) == 0 && asked(initial(), none, backoff) == 0);
        assert(asked(initial(), one, connect) == 0 && asked(initial(), one, backoff) == 0);
        assert(asked(initial(), two, connect) == 1 && asked(initial(), two, backoff) == 0);
    } else {
        let four = unfailing_radio(started);
        let three = four.drop_last();
        let two = three.drop_last();
        let one = two.drop_last();
        let none = one.drop_last();
        assert(none.len() == 0);
        assert(stage_after(initial(), none) == initial());
        assert(stage_after(initial(), one) == Stage::Probing);
        assert(stage_after(initial(), two) == Stage::Starting);
        assert(stage_after(initial(), three) == Stage::Joining);
        assert(asked(initial(), none, connect) == 0 && asked(initial(), none, backoff) == 0);
        assert(asked(initial(), one, connect) == 0 && asked(initial(), one, backoff) == 0);
        assert(asked(initial(), two, connect) == 0 && asked(initial(), two, backoff) == 0);
        assert(asked(initial(), three, connect) == 1 && asked(initial(), three, backoff) == 0);
    }
}

/// Whether each of `events`, as they come in from `stage` on, is an outcome
/// of what the supervisor was waiting on when it came.
pub open spec fn responsive(stage: Stage, events: Seq<LinkEvent>) -> bool
    decreases events.len(),
{
    events.len() == 0 || (responsive(stage, events.drop_last()) && answers(
        stage_after(stage, events.drop_last()),
        events.last(),
    ))
}

/// Whether the link is short of connected in `stage` and stays so while
/// `events` come in.
pub open spec fn stays_down(stage: Stage, events: Seq<LinkEvent>) -> bool
    decreases events.len(),
{
    spec_link_state(stage_after(stage, events)) != LinkState::Connected && (events.len() == 0
        || stays_down(stage, events.drop_last()))
}

/// Whether no connect request fails among `events`.
pub open spec fn unfailing(events: Seq<LinkEvent>) -> bool {
    forall|i: int| 0 <= i < events.len() ==> #[trigger] events[i] != LinkEvent::Joined(false)
}

/// A radio that answers what it is asked and fails no connect request
/// cannot keep a supervisor that starts out disconnected from the link for
/// long: three events at most go by with the link short of connected, and
/// in them the supervisor asks to connect once at most and never backs off.
/// So the fourth event at the latest, the outcome of the first connect
/// request, finds the link connected.
pub proof fn lemma_unfailing_radio_connects(events: Seq<LinkEvent>)
    requires
        responsive(initial(), events),
        unfailing(events),
        stays_down(initial(), events),
    ensures
        events.len() <= 3,
        asked(initial(), events, LinkAction::Connect) == outstanding(
            stage_after(initial(), events),
        ),
        asked(initial(), events, LinkAction::Backoff(BACKOFF_MILLIS)) == 0,
        match stage_after(initial(), events) {
            Stage::Observing(held) => events.len() == 0 && held == LinkState::Disconnected,
            Stage::Probing => events.len() == 1,
            Stage::Starting => events.len() == 2,
            Stage::Joining => 2 <= events.len() <= 3,
            _ => false,
        },
    decreases events.len(),
{
    if events.len() > 0 {
        let before = events.drop_last();
        assert(unfailing(before)) by {
            assert forall|i: int| 0 <= i < before.len() implies #[trigger] before[i]
                != LinkEvent::Joined(false) by {
                assert(before[i] == events[i]);
            }
        }
        lemma_unfailing_radio_connects(before);
        assert(events.last() == events[events.len() - 1]);
    }
}

/// At most one connect request is outstanding at any time: however the
/// events come in, the requests made, with the one outstanding at the
/// outset, are the results taken with the one outstanding now. A request is
/// outstanding in the joining stage and in no other.
pub proof fn lemma_one_attempt_outstanding(stage: Stage, events: Seq<LinkEvent>)
    ensures
        asked(stage, events, LinkAction::Connect) + outstanding(stage) == settled(stage, events)
            + outstanding(stage_after(stage, events)),
        outstanding(stage_after(stage, events)) <= 1,
    decreases events.len(),
{
    if events.len() > 0 {
        lemma_one_attempt_outstanding(stage, events.drop_last());
    }
}

/// A drop of the link is answered by the backoff and by nothing else: the
/// link counts as down, and until the backoff is over the supervisor stays
/// where it is and asks for nothing, a connect least of all. Once it is
/// over, the supervisor turns to the radio again.
pub proof fn lemma_backoff_before_reconnect(events: Seq<LinkEvent>, action: LinkAction)
    requires
        forall|i: int| 0 <= i < events.len() ==> !(#[trigger] events[i] is Elapsed),
        action != LinkAction::Wait,
    ensures
        next_stage(Stage::Associated, LinkEvent::Dropped) == Stage::Recovering,
        next_action(Stage::Associated, LinkEvent::Dropped) == LinkAction::Backoff(BACKOFF_MILLIS),
        spec_link_state(Stage::Recovering) == LinkState::Disconnected,
        stage_after(Stage::Recovering, events) == Stage::Recovering,
        asked(Stage::Recovering, events, action) == 0,
        next_action(Stage::Recovering, LinkEvent::Elapsed) == LinkAction::QueryStarted,
    decreases events.len(),
{
    if events.len() > 0 {
        lemma_backoff_before_reconnect(events.drop_last(), action);
    }
}

/// The supervisor never comes to rest: in every stage it waits on an action,
/// some event answers it, and every event that answers it leads to a stage
/// with an action of its own.
pub proof fn lemma_never_at_rest(stage: Stage, event: LinkEvent)
    ensures
        spec_pending(stage) != LinkAction::Wait,
        exists|answer: LinkEvent| answers(stage, answer),
        answers(stage, event) ==> next_action(stage, event) != LinkAction::Wait,
{
    match stage {
        Stage::Observing(_) => assert(answers(stage, LinkEvent::Association(true))),
        Stage::Associated => assert(answers(stage, LinkEvent::Dropped)),
        Stage::Recovering | Stage::Retrying => assert(answers(stage, LinkEvent::Elapsed)),
        Stage::Probing => assert(answers(stage, LinkEvent::Started(true))),
        Stage::Starting => assert(answers(stage, LinkEvent::StartDone)),
        Stage::Joining => assert(answers(stage, LinkEvent::Joined(true))),
    }
}

/// The radio is started only when it says that it is not, and a connect is
/// asked for whenever the radio is found started or has been started, and
/// at no other time.
pub proof fn lemma_start_only_when_stopped(stage: Stage, event: LinkEvent)
    ensures
        next_action(stage, event) == LinkAction::StartRadio <==> stage is Probing && event
            == LinkEvent::Started(false),
        next_action(stage, event) == LinkAction::Connect <==> (stage is Probing && event
            == LinkEvent::Started(true)) || (stage is Starting && event is StartDone),
{
}

} // verus!
