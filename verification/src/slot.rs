//! The notification slot shared by the event sources and the dispatcher.

use vstd::prelude::*;

verus! {

/// The tag an event source leaves behind.
#[derive(Clone, Copy, Debug, PartialEq, Eq, Structural)]
pub enum SlotTag {
    ButtonPressed,
    TimerFired,
}

/// What the slot holds once `tag` has been written over `before`: the newer
/// tag always wins, nothing is queued.
pub open spec fn written(before: Option<SlotTag>, tag: SlotTag) -> Option<SlotTag> {
    Some(tag)
}

/// What the slot holds once every tag of `tags` has been written, in order.
pub open spec fn written_all(before: Option<SlotTag>, tags: Seq<SlotTag>) -> Option<SlotTag>
    decreases tags.len(),
{
    if tags.len() == 0 {
        before
    } else {
        written(written_all(before, tags.drop_last()), tags.last())
    }
}

/// The value a read hands out, and what it leaves in the slot.
pub open spec fn taken(before: Option<SlotTag>) -> (Option<SlotTag>, Option<SlotTag>) {
    (before, None)
}

/// A cell that holds at most one pending tag.
#[derive(Debug)]
pub struct NotificationSlot {
    pending: Option<SlotTag>,
}

impl View for NotificationSlot {
    type V = Option<SlotTag>;

    closed spec fn view(&self) -> Option<SlotTag> {
        self.pending
    }
}

impl NotificationSlot {
    /// An empty slot.
    pub fn new() -> (slot: NotificationSlot)
        ensures
            slot@ is None,
    {
        NotificationSlot { pending: None }
    }

    /// Stores `tag`, replacing whatever was pending.
    pub fn write(&mut self, tag: SlotTag)
        ensures
            final(self)@ == written(old(self)@, tag),
    {
        self.pending = Some(tag);
    }

    /// Hands out the pending tag, if any, and leaves the slot empty.
    pub fn read(&mut self) -> (tag: Option<SlotTag>)
        ensures
            tag == taken(old(self)@).0,
            final(self)@ == taken(old(self)@).1,
    {
        let tag = self.pending;
        self.pending = None;
        tag
    }

    /// Discards the pending tag, if any.
    pub fn reset(&mut self)
        ensures
            final(self)@ is None,
    {
        self.pending = None;
    }

    /// Whether a tag is pending.
    pub fn is_pending(&self) -> (pending: bool)
        ensures
            pending == (self@ is Some),
    {
        self.pending.is_some()
    }
}

/// After any non-empty run of writes, whoever made them and whatever the slot
/// held before, a read yields the tag written last and empties the slot.
pub proof fn lemma_read_yields_latest_write(before: Option<SlotTag>, tags: Seq<SlotTag>)
    requires
        tags.len() > 0,
    ensures
        taken(written_all(before, tags)) == (Some(tags.last()), None::<SlotTag>),
{
}

/// A read that follows another read, or a reset, with no write in between
/// finds the slot empty and leaves it empty.
pub proof fn lemma_read_without_write_is_empty(before: Option<SlotTag>)
    ensures
        taken(taken(before).1) == (None::<SlotTag>, None::<SlotTag>),
{
}

} // verus!
