//! The event dispatcher: one event per iteration, at most one report per event.

use vstd::prelude::*;
use vstd::string::StringSliceAdditionalSpecFns;
use vstd::utf8::encode_utf8_decode_utf8;
use vstd::utf8::is_ascii_chars_encode_utf8;

use crate::payload::Payload;
use crate::payload::PAYLOAD_CAPACITY;
use crate::slot::NotificationSlot;
use crate::slot::SlotTag;

verus! {

/// The topic on which a reading is requested over the bus.
pub const REQUEST_TOPIC: &'static str = "get-temp/1";

/// The body a bus message must have to count as a request.
pub const REQUEST_BODY: &'static str = "it's me";

/// Where a report comes from.
#[derive(Clone, Copy, Debug, PartialEq, Eq, Structural)]
pub enum Source {
    BootBtn,
    Timer,
    Mqtt,
}

/// What one iteration of the dispatcher selected.
#[derive(Clone, Copy, Debug)]
pub enum EventTag<'a> {
    ButtonPressed,
    TimerFired,
    /// A request received over the bus, with its topic and its body.
    BusMessage(&'a str, &'a [u8]),
    NoEvent,
}

impl<'a> EventTag<'a> {
    /// The source a report on this event is tagged with; none for no event.
    pub open spec fn spec_source(self) -> Option<Source> {
        match self {
            EventTag::ButtonPressed => Some(Source::BootBtn),
            EventTag::TimerFired => Some(Source::Timer),
            EventTag::BusMessage(_, _) => Some(Source::Mqtt),
            EventTag::NoEvent => None,
        }
    }

    /// The source a report on this event is tagged with; none for no event.
    #[verifier::when_used_as_spec(spec_source)]
    pub fn source(self) -> (source: Option<Source>)
        ensures
            source == self.spec_source(),
    {
        match self {
            EventTag::ButtonPressed => Some(Source::BootBtn),
            EventTag::TimerFired => Some(Source::Timer),
            EventTag::BusMessage(_, _) => Some(Source::Mqtt),
            EventTag::NoEvent => None,
        }
    }
}

impl Source {
    /// The text a report from this source begins with.
    pub open spec fn spec_prefix(self) -> &'static str {
        match self {
            Source::BootBtn => "BootBtn: ",
            Source::Timer => "Timer: ",
            Source::Mqtt => "MQTT: ",
        }
    }

    /// The text a report from this source begins with.
    #[verifier::when_used_as_spec(spec_prefix)]
    pub fn prefix(self) -> (text: &'static str)
        ensures
            text == self.spec_prefix(),
            text.spec_bytes().len() <= 9,
    {
        proof {
            reveal_strlit("BootBtn: ");
            reveal_strlit("Timer: ");
            reveal_strlit("MQTT: ");
            is_ascii_chars_encode_utf8("BootBtn: "@);
            is_ascii_chars_encode_utf8("Timer: "@);
            is_ascii_chars_encode_utf8("MQTT: "@);
        }
        match self {
            Source::BootBtn => "BootBtn: ",
            Source::Timer => "Timer: ",
            Source::Mqtt => "MQTT: ",
        }
    }
}

/// Whether a bus message asks for a reading: its topic is [`REQUEST_TOPIC`]
/// and its body is exactly [`REQUEST_BODY`].
pub open spec fn spec_is_request(topic: &str, body: &[u8]) -> bool {
    topic@ == REQUEST_TOPIC@ && body@ == REQUEST_BODY.spec_bytes()
}

/// Whether two byte strings are equal.
fn bytes_equal(left: &[u8], right: &[u8]) -> (equal: bool)
    ensures
        equal == (left@ == right@),
{
    if left.len() != right.len() {
        return false;
    }
    let mut index: usize = 0;
    while index < left.len()
        invariant
            left@.len() == right@.len(),
            index <= left@.len(),
            forall|k: int| 0 <= k < index ==> left@[k] == right@[k],
        decreases left@.len() - index,
    {
        if left[index] != right[index] {
            return false;
        }
        index += 1;
    }
    assert(left@ =~= right@);
    true
}

/// Whether a bus message asks for a reading.
#[verifier::when_used_as_spec(spec_is_request)]
pub fn is_request(topic: &str, body: &[u8]) -> (request: bool)
    ensures
        request == spec_is_request(topic, body),
{
    proof {
        encode_utf8_decode_utf8(topic@);
        encode_utf8_decode_utf8(REQUEST_TOPIC@);
    }
    bytes_equal(topic.as_bytes(), REQUEST_TOPIC.as_bytes()) && bytes_equal(
        body,
        REQUEST_BODY.as_bytes(),
    )
}

/// The bytes of the report on `reading` from `source`: the source's prefix,
/// then the reading where the two together fit a payload.
pub open spec fn report_bytes(source: Source, reading: &str) -> Seq<u8> {
    let prefix = source.spec_prefix().spec_bytes();
    if prefix.len() + reading.spec_bytes().len() <= PAYLOAD_CAPACITY {
        prefix + reading.spec_bytes()
    } else {
        prefix
    }
}

/// Puts together the report on `reading`, the reading already as text, from
/// `source`.
pub fn compose(source: Source, reading: &str) -> (payload: Payload)
    ensures
        payload@ == report_bytes(source, reading),
{
    let mut payload = Payload::new();
    payload.append(source.prefix());
    payload.append(reading);
    payload
}

/// Where the dispatcher stands within an iteration.
#[derive(Clone, Copy, Debug, PartialEq, Eq, Structural)]
pub enum Phase {
    /// Between iterations: nothing is awaited and nothing is owed.
    Idle,
    /// The slot has been cleared and the race is on.
    Racing,
    /// An event was selected; a report from this source is owed.
    Reading(Source),
}

/// What the dispatcher can be asked to do.
#[derive(Clone, Copy, Debug, PartialEq, Eq, Structural)]
pub enum Move {
    /// Begin an iteration.
    Arm,
    /// Take the outcome of the race: the source it names, if any.
    Resolve(Option<Source>),
    /// Report a reading.
    Report,
}

/// The source that a tag taken from the slot names.
pub open spec fn slot_source(tag: Option<SlotTag>) -> Option<Source> {
    match tag {
        Some(SlotTag::ButtonPressed) => Some(Source::BootBtn),
        Some(SlotTag::TimerFired) => Some(Source::Timer),
        None => None,
    }
}

/// The source that a completed bus receive names: the bus, when a message
/// came and it is a request.
pub open spec fn bus_source(message: Option<(&str, &[u8])>) -> Option<Source> {
    match message {
        Some((topic, body)) => if spec_is_request(topic, body) {
            Some(Source::Mqtt)
        } else {
            None
        },
        None => None,
    }
}

/// The phase that follows `phase` on `mv`. A move that does not belong to
/// the phase changes nothing.
pub open spec fn after(phase: Phase, mv: Move) -> Phase {
    match (phase, mv) {
        (Phase::Idle, Move::Arm) => Phase::Racing,
        (Phase::Racing, Move::Resolve(Some(source))) => Phase::Reading(source),
        (Phase::Racing, Move::Resolve(None)) => Phase::Idle,
        (Phase::Reading(_), Move::Report) => Phase::Idle,
        _ => phase,
    }
}

/// Whether `mv`, made in `phase`, publishes a report.
pub open spec fn publishes(phase: Phase, mv: Move) -> bool {
    phase is Reading && mv is Report
}

/// Whether `mv`, made in `phase`, selects an event that has a source.
pub open spec fn selects(phase: Phase, mv: Move) -> bool {
    phase is Racing && mv matches Move::Resolve(Some(_))
}

/// The phase reached from `phase` by `moves`, in order.
pub open spec fn after_all(phase: Phase, moves: Seq<Move>) -> Phase
    decreases moves.len(),
{
    if moves.len() == 0 {
        phase
    } else {
        after(after_all(phase, moves.drop_last()), moves.last())
    }
}

/// How many reports `moves`, made in order from `phase`, publish.
pub open spec fn published(phase: Phase, moves: Seq<Move>) -> nat
    decreases moves.len(),
{
    if moves.len() == 0 {
        0
    } else {
        let before = moves.drop_last();
        published(phase, before) + if publishes(after_all(phase, before), moves.last()) {
            1nat
        } else {
            0nat
        }
    }
}

/// How many events with a source `moves`, made in order from `phase`, select.
pub open spec fn selected(phase: Phase, moves: Seq<Move>) -> nat
    decreases moves.len(),
{
    if moves.len() == 0 {
        0
    } else {
        let before = moves.drop_last();
        selected(phase, before) + if selects(after_all(phase, before), moves.last()) {
            1nat
        } else {
            0nat
        }
    }
}

/// The dispatcher's place in its loop.
#[derive(Debug)]
pub struct Dispatcher {
    phase: Phase,
}

impl View for Dispatcher {
    type V = Phase;

    closed spec fn view(&self) -> Phase {
        self.phase
    }
}

impl Dispatcher {
    /// A dispatcher between iterations.
    pub fn new() -> (dispatcher: Dispatcher)
        ensures
            dispatcher@ is Idle,
    {
        Dispatcher { phase: Phase::Idle }
    }

    /// The phase the dispatcher is in.
    pub fn phase(&self) -> (phase: Phase)
        ensures
            phase == self@,
    {
        self.phase
    }

    /// Begins an iteration: clears the slot, so that nothing written while
    /// the last event was handled counts again, and opens the race. Between
    /// iterations only; at any other time nothing is touched.
    pub fn arm(&mut self, slot: &mut NotificationSlot) -> (armed: bool)
        ensures
            armed == (old(self)@ is Idle),
            final(self)@ == after(old(self)@, Move::Arm),
            final(slot)@ == if armed {
                None
            } else {
                old(slot)@
            },
    {
        match self.phase {
            Phase::Idle => {
                slot.reset();
                self.phase = Phase::Racing;
                true
            },
            _ => false,
        }
    }

    /// The race went to the slot: takes the pending tag and selects its
    /// event, or no event when the slot turns out empty. Outside a race the
    /// slot is left alone and no event is selected.
    pub fn slot_won(&mut self, slot: &mut NotificationSlot) -> (event: EventTag<'static>)
        ensures
            final(self)@ == after(old(self)@, Move::Resolve(slot_source(old(slot)@))),
            old(self)@ is Racing ==> final(slot)@ is None && event == match old(slot)@ {
                Some(SlotTag::ButtonPressed) => EventTag::ButtonPressed,
                Some(SlotTag::TimerFired) => EventTag::TimerFired,
                None => EventTag::NoEvent,
            },
            !(old(self)@ is Racing) ==> final(slot)@ == old(slot)@ && event is NoEvent,
    {
        match self.phase {
            Phase::Racing => match slot.read() {
                Some(SlotTag::ButtonPressed) => {
                    self.phase = Phase::Reading(Source::BootBtn);
                    EventTag::ButtonPressed
                },
                Some(SlotTag::TimerFired) => {
                    self.phase = Phase::Reading(Source::Timer);
                    EventTag::TimerFired
                },
                None => {
                    self.phase = Phase::Idle;
                    EventTag::NoEvent
                },
            },
            _ => EventTag::NoEvent,
        }
    }

    /// The race went to the bus: selects the bus message when the receive
    /// gave one and it is a request, and no event otherwise, be it a failed
    /// receive or any other message. Outside a race no event is selected.
    pub fn bus_won<'a>(&mut self, message: Option<(&'a str, &'a [u8])>) -> (event: EventTag<'a>)
        ensures
            final(self)@ == after(old(self)@, Move::Resolve(bus_source(message))),
            event == if old(self)@ is Racing && bus_source(message) is Some {
                EventTag::BusMessage(message.unwrap().0, message.unwrap().1)
            } else {
                EventTag::NoEvent
            },
    {
        match self.phase {
            Phase::Racing => match message {
                Some((topic, body)) => {
                    if is_request(topic, body) {
                        self.phase = Phase::Reading(Source::Mqtt);
                        EventTag::BusMessage(topic, body)
                    } else {
                        self.phase = Phase::Idle;
                        EventTag::NoEvent
                    }
                },
                None => {
                    self.phase = Phase::Idle;
                    EventTag::NoEvent
                },
            },
            _ => EventTag::NoEvent,
        }
    }

    /// Turns the reading taken for the selected event into its report, and
    /// ends the iteration. Where no report is owed there is none.
    pub fn report(&mut self, reading: &str) -> (payload: Option<Payload>)
        ensures
            final(self)@ == after(old(self)@, Move::Report),
            payload is Some == publishes(old(self)@, Move::Report),
            match old(self)@ {
                Phase::Reading(source) => payload is Some && payload.unwrap()@ == report_bytes(
                    source,
                    reading,
                ),
                _ => payload is None,
            },
    {
        match self.phase {
            Phase::Reading(source) => {
                self.phase = Phase::Idle;
                Some(compose(source, reading))
            },
            _ => None,
        }
    }
}

/// The number of reports a dispatcher in `phase` owes: one while a selected
/// event waits for its reading, none otherwise.
pub open spec fn owed(phase: Phase) -> nat {
    if phase is Reading {
        1
    } else {
        0
    }
}

/// However the dispatcher is driven, every event it selects is reported
/// once: the events selected so far, with what was owed at the outset, are
/// the reports published so far with what is owed now. So no event is
/// reported twice, and none is reported that was not selected.
pub proof fn lemma_one_report_per_event(phase: Phase, moves: Seq<Move>)
    ensures
        selected(phase, moves) + owed(phase) == published(phase, moves) + owed(
            after_all(phase, moves),
        ),
        published(phase, moves) <= selected(phase, moves) + owed(phase),
    decreases moves.len(),
{
    if moves.len() > 0 {
        lemma_one_report_per_event(phase, moves.drop_last());
    }
}

/// An iteration that resolves to no event publishes nothing: whatever is
/// asked of the dispatcher next, short of a new race that selects an event,
/// yields no report.
pub proof fn lemma_no_report_without_event(moves: Seq<Move>)
    requires
        forall|i: int| 0 <= i < moves.len() ==> !(#[trigger] moves[i] matches Move::Resolve(Some(_))),
    ensures
        published(after(Phase::Racing, Move::Resolve(None)), moves) == 0,
    decreases moves.len(),
{
    let start = after(Phase::Racing, Move::Resolve(None));
    if moves.len() > 0 {
        let before = moves.drop_last();
        lemma_no_report_without_event(before);
        lemma_one_report_per_event(start, before);
        lemma_nothing_selected(start, before);
    }
}

/// Moves that resolve no race to a source select nothing.
proof fn lemma_nothing_selected(phase: Phase, moves: Seq<Move>)
    requires
        forall|i: int| 0 <= i < moves.len() ==> !(#[trigger] moves[i] matches Move::Resolve(Some(_))),
    ensures
        selected(phase, moves) == 0,
    decreases moves.len(),
{
    if moves.len() > 0 {
        lemma_nothing_selected(phase, moves.drop_last());
    }
}

} // verus!
