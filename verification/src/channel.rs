use vstd::prelude::*;

verus! {

/// Which end of the channel this instance is. Fixed at construction and
/// never mutated afterwards.
#[derive(Clone, Copy, Debug, PartialEq, Eq, Structural)]
pub enum Role {
    /// Bound a path and accepted exactly one connection; owns the path
    /// entry and removes it on teardown.
    Listener,
    /// Connected to an already-bound path; owns no path entry.
    Connector,
}

/// What one pass of teardown must still do to the outside world: shut the
/// connection down, and, for a listener, remove the bound path entry.
#[derive(Clone, Copy, Debug, PartialEq, Eq, Structural)]
pub struct TeardownPlan {
    pub shutdown: bool,
    pub remove_path: bool,
}

/// The lifecycle state of one channel: its role, and whether teardown has
/// already run. The shell that owns the live connection drives this state
/// and performs exactly the actions each step hands back, so the side
/// effects of teardown happen at most once however often it is invoked.
#[derive(Clone, Copy, Debug, PartialEq, Eq, Structural)]
pub struct ChannelState {
    pub role: Role,
    pub torn_down: bool,
}

/// The state after one teardown pass: torn down, role untouched.
pub open spec fn spec_disconnect_state(st: ChannelState) -> ChannelState {
    ChannelState { role: st.role, torn_down: true }
}

/// The actions one teardown pass performs: nothing at all if the channel is
/// already torn down, otherwise a shutdown, plus the path removal if and
/// only if this end is the listener.
pub open spec fn spec_disconnect_plan(st: ChannelState) -> TeardownPlan {
    TeardownPlan {
        shutdown: !st.torn_down,
        remove_path: !st.torn_down && st.role is Listener,
    }
}

impl ChannelState {
    /// A freshly constructed channel in the given role, not yet torn down.
    pub fn new(role: Role) -> (st: ChannelState)
        ensures
            st.role == role,
            !st.torn_down,
    {
        ChannelState { role, torn_down: false }
    }

    /// One pass of teardown: marks the channel torn down and hands back the
    /// actions this pass still owes the outside world.
    pub fn disconnect_step(&mut self) -> (plan: TeardownPlan)
        ensures
            *final(self) == spec_disconnect_state(*old(self)),
            plan == spec_disconnect_plan(*old(self)),
    {
        let plan = TeardownPlan {
            shutdown: !self.torn_down,
            remove_path: !self.torn_down && matches!(self.role, Role::Listener),
        };
        self.torn_down = true;
        plan
    }
}

/// Teardown is idempotent: a second pass finds the channel already torn
/// down, performs no action, and leaves the state exactly as the first pass
/// left it.
pub proof fn lemma_teardown_idempotent(st: ChannelState)
    ensures
        spec_disconnect_plan(spec_disconnect_state(st)) == (TeardownPlan {
            shutdown: false,
            remove_path: false,
        }),
        spec_disconnect_state(spec_disconnect_state(st)) == spec_disconnect_state(st),
{
}

} // verus!
