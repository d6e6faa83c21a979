//! The lifecycle states of a supervised service.

use vstd::prelude::*;

verus! {

/// Where a supervised service stands in its lifecycle.
///
/// The states do not form a line: `Restart` leads back through `Start` to
/// `Up`, and `Down` can be entered from anywhere.
#[derive(Debug, Clone, Copy, PartialEq, Eq, Structural)]
pub enum ProcessState {
    Down,
    Up,
    Start,
    Restart,
}

impl ProcessState {
    /// The lowercase name under which the state is reported.
    pub open spec fn spec_name(&self) -> Seq<char> {
        match *self {
            ProcessState::Down => "down"@,
            ProcessState::Up => "up"@,
            ProcessState::Start => "start"@,
            ProcessState::Restart => "restart"@,
        }
    }

    /// A service counts as healthy in every state but `Down`.
    pub open spec fn spec_is_healthy(&self) -> bool {
        !(self is Down)
    }

    /// The lowercase name of the state.
    pub fn name(&self) -> (r: &'static str)
        ensures
            r@ == self.spec_name(),
    {
        match self {
            ProcessState::Down => "down",
            ProcessState::Up => "up",
            ProcessState::Start => "start",
            ProcessState::Restart => "restart",
        }
    }

    /// The lowercase name of the state, as an owned string.
    pub fn to_string(&self) -> (r: String)
        ensures
            r@ == self.spec_name(),
    {
        self.name().to_owned()
    }

    /// Whether a service in this state is reported as healthy.
    pub fn is_healthy(&self) -> (r: bool)
        ensures
            r == self.spec_is_healthy(),
    {
        match self {
            ProcessState::Down => false,
            ProcessState::Up | ProcessState::Start | ProcessState::Restart => true,
        }
    }
}

} // verus!
