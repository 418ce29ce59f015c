//! The two copies that make up a tunnel: one to the server, one to the client.
//!
//! Both run beside each other. [`Relay`] decides, as each of them ends, whether the tunnel is
//! still needed.

use vstd::prelude::*;

verus! {

/// Which way a copy goes.
#[derive(Debug, Copy, Clone, PartialEq, Eq, Structural)]
pub enum Direction {
    ToServer,
    ToClient,
}

/// The copy that goes the other way.
pub open spec fn opposite(direction: Direction) -> Direction {
    match direction {
        Direction::ToServer => Direction::ToClient,
        Direction::ToClient => Direction::ToServer,
    }
}

/// The end of a copy.
#[derive(Debug, Copy, Clone, PartialEq, Eq, Structural)]
pub struct Ended {
    pub direction: Direction,
    /// Whether it came to the end of its source. If not, it failed.
    pub ok: bool,
}

/// Which copies are under way.
#[derive(Debug, Copy, Clone, PartialEq, Eq, Structural)]
pub enum Stage {
    Both,
    One { left: Direction },
    Over,
}

/// What the owner of the sockets is to do next.
#[derive(Debug, Copy, Clone, PartialEq, Eq, Structural)]
pub enum Action {
    /// Wait for the copy that is left.
    Wait,
    /// Stop: all has been passed on, both ways.
    Finish,
    /// Stop whatever is left, and report the failure that was handed in last as it is.
    Report,
}

/// Whether a copy that goes this way is under way.
pub open spec fn awaited(stage: Stage, direction: Direction) -> bool {
    match stage {
        Stage::Both => true,
        Stage::One { left } => direction == left,
        Stage::Over => false,
    }
}

/// What follows the end of a copy. A failure ends the tunnel at once; without one, it ends
/// with the second copy.
pub open spec fn after(stage: Stage, ended: Ended) -> (Stage, Action)
    recommends
        awaited(stage, ended.direction),
{
    if !ended.ok {
        (Stage::Over, Action::Report)
    } else if stage == Stage::Both {
        (Stage::One { left: opposite(ended.direction) }, Action::Wait)
    } else {
        (Stage::Over, Action::Finish)
    }
}

/// A tunnel that stands.
#[derive(Debug, Copy, Clone)]
pub struct Relay {
    stage: Stage,
}

impl Relay {
    /// Which copies are under way.
    pub closed spec fn spec_stage(self) -> Stage {
        self.stage
    }

    /// Which copies are under way.
    #[verifier::when_used_as_spec(spec_stage)]
    pub fn stage(self) -> (stage: Stage)
        ensures
            stage == self.spec_stage(),
    {
        self.stage
    }

    /// A tunnel with both copies under way.
    pub fn new() -> (relay: Self)
        ensures
            relay.stage() == Stage::Both,
    {
        Relay { stage: Stage::Both }
    }

    /// Takes the end of a copy and says what to do next.
    pub fn step(&mut self, ended: Ended) -> (action: Action)
        requires
            awaited(old(self).stage(), ended.direction),
        ensures
            (final(self).stage(), action) == after(old(self).stage(), ended),
    {
        if !ended.ok {
            self.stage = Stage::Over;
            return Action::Report;
        }
        match self.stage {
            Stage::Both => {
                let left = match ended.direction {
                    Direction::ToServer => Direction::ToClient,
                    Direction::ToClient => Direction::ToServer,
                };
                self.stage = Stage::One { left };
                Action::Wait
            },
            _ => {
                self.stage = Stage::Over;
                Action::Finish
            },
        }
    }
}

/// Whether the ends of copies, and the actions that follow them, are the whole life of a
/// tunnel: both copies are under way at first, and it goes on until there is nothing to wait
/// for.
pub open spec fn is_relay(ends: Seq<Ended>, stages: Seq<Stage>, actions: Seq<Action>) -> bool {
    &&& ends.len() > 0
    &&& stages.len() == ends.len() + 1
    &&& actions.len() == ends.len()
    &&& stages[0] == Stage::Both
    &&& forall|i: int| #![trigger ends[i]]
        0 <= i < ends.len() ==> {
            &&& awaited(stages[i], ends[i].direction)
            &&& (stages[i + 1], actions[i]) == after(stages[i], ends[i])
            &&& actions[i] is Wait <==> i < ends.len() - 1
        }
}

/// A tunnel succeeds exactly if both copies have come to the end of their sources, and
/// otherwise the first failure of either is reported, without a wait for the other copy.
pub proof fn tunnel_needs_both(ends: Seq<Ended>, stages: Seq<Stage>, actions: Seq<Action>)
    requires
        is_relay(ends, stages, actions),
    ensures
        ends.len() <= 2,
        stages.last() == Stage::Over,
        actions.last() is Finish || actions.last() is Report,
        actions.last() is Finish <==> ends.contains(
            Ended { direction: Direction::ToServer, ok: true },
        ) && ends.contains(Ended { direction: Direction::ToClient, ok: true }),
        actions.last() is Report <==> !ends.last().ok,
        actions.last() is Report <==> exists|i: int| 0 <= i < ends.len() && !(#[trigger] ends[i]).ok,
{
    assert(awaited(stages[0], ends[0].direction));
    if ends.len() > 1 {
        assert(awaited(stages[1], ends[1].direction));
    }
    if ends.len() > 2 {
        assert(awaited(stages[2], ends[2].direction));
    }
    assert(ends.last() == ends[ends.len() - 1]);
}

/// The end of either copy is taken while both are under way, that of the other one after one has
/// come to its end, and none once the tunnel is over.
pub proof fn each_copy_ends_once(stage: Stage, first: Ended, direction: Direction)
    requires
        awaited(stage, first.direction),
    ensures
        awaited(Stage::Both, direction),
        !awaited(Stage::Over, direction),
        stage == Stage::Both && first.ok ==> (awaited(after(stage, first).0, direction)
            <==> direction != first.direction),
        stage != Stage::Both || !first.ok ==> !awaited(after(stage, first).0, direction),
        after(stage, first).1 is Wait <==> stage == Stage::Both && first.ok,
        after(stage, first).1 is Report <==> !first.ok,
{
}

} // verus!
