//! The bring-up of the node: radio, link, addresses, stream, session.

use vstd::prelude::*;

verus! {

/// How far the bring-up has come.
#[derive(Clone, Copy, Debug, PartialEq, Eq, Structural)]
pub enum Startup {
    /// The radio is being initialised.
    Radio,
    /// The link is awaited.
    Link,
    /// The address configuration is awaited.
    Addressing,
    /// The stream to the broker is being opened.
    Stream,
    /// The session with the broker is being opened.
    Session,
    /// Everything is up: the dispatcher runs.
    Running,
    /// The bring-up was given up.
    Halted,
}

/// The number of steps that lie behind a stage.
pub open spec fn rank(stage: Startup) -> nat {
    match stage {
        Startup::Radio => 0,
        Startup::Link => 1,
        Startup::Addressing => 2,
        Startup::Stream => 3,
        Startup::Session => 4,
        Startup::Running => 5,
        Startup::Halted => 0,
    }
}

/// The stage that follows `stage` once its step has come to an end, well
/// (`done`) or not.
///
/// Every step that ends well leads to the next. The link and the addresses
/// are waited for however often they fail to come. A radio that cannot be
/// initialised, a stream that cannot be opened and a session that the broker
/// refuses end the bring-up: none of them is tried again.
pub open spec fn advanced(stage: Startup, done: bool) -> Startup {
    match stage {
        Startup::Radio => if done {
            Startup::Link
        } else {
            Startup::Halted
        },
        Startup::Link => if done {
            Startup::Addressing
        } else {
            Startup::Link
        },
        Startup::Addressing => if done {
            Startup::Stream
        } else {
            Startup::Addressing
        },
        Startup::Stream => if done {
            Startup::Session
        } else {
            Startup::Halted
        },
        Startup::Session => if done {
            Startup::Running
        } else {
            Startup::Halted
        },
        Startup::Running => Startup::Running,
        Startup::Halted => Startup::Halted,
    }
}

/// The stage reached from `stage` as its steps end as `outcomes` tells, in order.
pub open spec fn advanced_all(stage: Startup, outcomes: Seq<bool>) -> Startup
    decreases outcomes.len(),
{
    if outcomes.len() == 0 {
        stage
    } else {
        advanced(advanced_all(stage, outcomes.drop_last()), outcomes.last())
    }
}

/// How many of `outcomes` are good.
pub open spec fn successes(outcomes: Seq<bool>) -> nat
    decreases outcomes.len(),
{
    if outcomes.len() == 0 {
        0
    } else {
        successes(outcomes.drop_last()) + if outcomes.last() {
            1nat
        } else {
            0nat
        }
    }
}

impl Startup {
    /// The stage every bring-up begins in.
    pub fn new() -> (stage: Startup)
        ensures
            stage == Startup::Radio,
    {
        Startup::Radio
    }

    /// The stage that follows once the step of this one has come to an end.
    pub fn advance(self, done: bool) -> (next: Startup)
        ensures
            next == advanced(self, done),
    {
        match self {
            Startup::Radio => if done {
                Startup::Link
            } else {
                Startup::Halted
            },
            Startup::Link => if done {
                Startup::Addressing
            } else {
                Startup::Link
            },
            Startup::Addressing => if done {
                Startup::Stream
            } else {
                Startup::Addressing
            },
            Startup::Stream => if done {
                Startup::Session
            } else {
                Startup::Halted
            },
            Startup::Session => if done {
                Startup::Running
            } else {
                Startup::Halted
            },
            Startup::Running => Startup::Running,
            Startup::Halted => Startup::Halted,
        }
    }
}

/// The dispatcher runs only once the radio, the link, the addresses, the
/// stream and the session have come up, in this order: a stage is reached
/// with exactly as many good outcomes as steps lie behind it, and every
/// stage before it has been passed on the way.
pub proof fn lemma_stages_come_in_order(outcomes: Seq<bool>)
    ensures
        !(advanced_all(Startup::Radio, outcomes) is Halted) ==> rank(
            advanced_all(Startup::Radio, outcomes),
        ) == if successes(outcomes) < 5 {
            successes(outcomes)
        } else {
            5
        },
        advanced_all(Startup::Radio, outcomes) is Running ==> successes(outcomes) >= 5,
    decreases outcomes.len(),
{
    if outcomes.len() > 0 {
        lemma_stages_come_in_order(outcomes.drop_last());
    }
}

/// A bring-up that was given up stays so, and one that is through stays through.
pub proof fn lemma_end_stages_are_final(stage: Startup, outcomes: Seq<bool>)
    requires
        stage is Halted || stage is Running,
    ensures
        advanced_all(stage, outcomes) == stage,
    decreases outcomes.len(),
{
    if outcomes.len() > 0 {
        lemma_end_stages_are_final(stage, outcomes.drop_last());
    }
}

} // verus!
