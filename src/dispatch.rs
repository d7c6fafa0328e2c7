//! The per-call dispatcher. A call starts idle, runs its body, and settles
//! once: on success, on a failure that the body reports, or on a fault
//! caught around the body. Settling hands back the one delivery that the
//! caller's callback receives.

use crate::protocol::{BoundaryError, Envelope, ErrorKind, INTERNAL_FAULT_CODE, OK_CODE};
use vstd::prelude::*;

verus! {

/// Where a call stands.
#[derive(Clone, Copy, Debug, PartialEq, Eq, Structural)]
pub enum CallState {
    Idle,
    Running,
    Succeeded,
    Failed,
}

/// How the body of a call ended.
pub enum Outcome<P> {
    /// The body returned, with its payload or its error.
    Completed(Result<P, BoundaryError>),
    /// The body was interrupted by a fault of the host runtime.
    Faulted,
}

/// What the callback receives: the success payload, or an error envelope.
pub enum Delivery<P> {
    Success(P),
    Failure(Envelope),
}

/// The description reported for a caught fault.
pub open spec fn fault_description() -> Seq<char> {
    seq!['i', 'n', 't', 'e', 'r', 'n', 'a', 'l', ' ', 'f', 'a', 'u', 'l', 't']
}

/// The delivery that settling on `outcome` hands back.
pub open spec fn settles_as<P>(outcome: Outcome<P>, d: Delivery<P>) -> bool {
    match outcome {
        Outcome::Completed(Ok(p)) => d == Delivery::Success(p),
        Outcome::Completed(Err(e)) => d == Delivery::<P>::Failure(Envelope::of_error_spec(e)),
        Outcome::Faulted => match d {
            Delivery::Failure(env) => {
                &&& env.error_code == INTERNAL_FAULT_CODE
                &&& env.description matches Some(t) && t@ == fault_description()
            },
            Delivery::Success(_) => false,
        },
    }
}

/// A delivery is well formed when a failure carries a code other than the
/// success code.
pub open spec fn well_formed<P>(d: Delivery<P>) -> bool {
    match d {
        Delivery::Success(_) => true,
        Delivery::Failure(env) => env.error_code != OK_CODE && env.description is Some,
    }
}

/// An outcome whose error, if any, has a well-formed kind.
pub open spec fn outcome_wf<P>(outcome: Outcome<P>) -> bool {
    match outcome {
        Outcome::Completed(Err(e)) => e.kind.wf(),
        _ => true,
    }
}

/// The state of one call, and how many deliveries it has made.
pub struct Dispatcher {
    pub state: CallState,
    pub deliveries: u64,
}

impl Dispatcher {
    /// A call in a terminal state has made exactly one delivery; any other
    /// has made none.
    pub open spec fn wf(&self) -> bool {
        match self.state {
            CallState::Succeeded | CallState::Failed => self.deliveries == 1,
            _ => self.deliveries == 0,
        }
    }

    /// A fresh call, not yet started.
    pub fn new() -> (d: Dispatcher)
        ensures
            d.state == CallState::Idle,
            d.deliveries == 0,
            d.wf(),
    {
        Dispatcher { state: CallState::Idle, deliveries: 0 }
    }

    /// Starts the call's body.
    pub fn begin(&mut self)
        requires
            old(self).state == CallState::Idle,
            old(self).wf(),
        ensures
            final(self).state == CallState::Running,
            final(self).deliveries == 0,
            final(self).wf(),
    {
        self.state = CallState::Running;
    }

    /// Whether the call has settled.
    pub fn is_settled(&self) -> (r: bool)
        ensures
            r == (self.state == CallState::Succeeded || self.state == CallState::Failed),
    {
        match self.state {
            CallState::Succeeded | CallState::Failed => true,
            _ => false,
        }
    }

    /// Settles a running call on how its body ended, and returns what its
    /// callback receives.
    pub fn settle<P>(&mut self, outcome: Outcome<P>) -> (r: Delivery<P>)
        requires
            old(self).state == CallState::Running,
            old(self).wf(),
        ensures
            settles_as(outcome, r),
            final(self).deliveries == 1,
            final(self).wf(),
            final(self).state == (match r {
                Delivery::Success(_) => CallState::Succeeded,
                Delivery::Failure(_) => CallState::Failed,
            }),
    {
        self.deliveries = 1;
        match outcome {
            Outcome::Completed(Ok(p)) => {
                self.state = CallState::Succeeded;
                Delivery::Success(p)
            },
            Outcome::Completed(Err(e)) => {
                self.state = CallState::Failed;
                Delivery::Failure(Envelope::of_error(e))
            },
            Outcome::Faulted => {
                self.state = CallState::Failed;
                let t = "internal fault".to_owned();
                proof {
                    reveal_strlit("internal fault");
                    assert(t@ =~= fault_description());
                }
                let e = BoundaryError::new(ErrorKind::InternalFault, t);
                Delivery::Failure(Envelope::of_error(e))
            },
        }
    }
}

/// Every call answers exactly once: settling a running call leaves it in a
/// terminal state with one delivery, and that delivery is a success or a
/// well-formed error, whatever the body did.
pub proof fn lemma_settle_answers_once<P>(
    before: Dispatcher,
    after: Dispatcher,
    outcome: Outcome<P>,
    d: Delivery<P>,
)
    requires
        before.state == CallState::Running,
        before.wf(),
        outcome_wf(outcome),
        settles_as(outcome, d),
        after.wf(),
        after.state == (match d {
            Delivery::Success(_) => CallState::Succeeded,
            Delivery::Failure(_) => CallState::Failed,
        }),
    ensures
        after.deliveries == 1,
        after.state != CallState::Running,
        well_formed(d),
        outcome is Faulted ==> (d matches Delivery::Failure(env) && env.error_code
            == ErrorKind::InternalFault.code_spec()),
        outcome matches Outcome::Completed(Err(e)) ==> (d matches Delivery::Failure(env)
            && env.error_code == e.kind.code_spec()),
{
}

} // verus!
