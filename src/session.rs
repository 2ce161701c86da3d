//! The phase ordering of a validation session, common to both transports:
//! Created, then Initialized, KeyEstablished and Signed, and Closed from any
//! state. A phase whose transport call failed leaves the session Failed: the
//! engine's state is then unknown, and no phase may run again.
use vstd::prelude::*;
use crate::error::SessionError;

verus! {

/// Where a session stands.
#[derive(PartialEq, Eq, Structural, Clone, Copy, Debug)]
pub enum Phase {
    Created,
    Initialized,
    KeyEstablished,
    Signed,
    Failed,
    Closed,
}

/// One of the three protocol phases.
#[derive(PartialEq, Eq, Structural, Clone, Copy, Debug)]
pub enum Operation {
    Initialize,
    KeyEstablishment,
    Sign,
}

/// The phase a session must be in for `op` to run.
pub open spec fn required_phase(op: Operation) -> Phase {
    match op {
        Operation::Initialize => Phase::Created,
        Operation::KeyEstablishment => Phase::Initialized,
        Operation::Sign => Phase::KeyEstablished,
    }
}

/// The phase a session reaches when `op` succeeds.
pub open spec fn next_phase(op: Operation) -> Phase {
    match op {
        Operation::Initialize => Phase::Initialized,
        Operation::KeyEstablishment => Phase::KeyEstablished,
        Operation::Sign => Phase::Signed,
    }
}

/// Whether `op` may run in phase `p`.
pub open spec fn permits(p: Phase, op: Operation) -> bool {
    p == required_phase(op)
}

/// The phase after `op` ran, with the given outcome.
pub open spec fn after(op: Operation, succeeded: bool) -> Phase {
    if succeeded {
        next_phase(op)
    } else {
        Phase::Failed
    }
}

/// One session over one transport, chosen at construction. The transport is
/// lent out while a phase runs, and handed back for release when the session
/// is closed.
pub struct ValidationSession<T> {
    pub phase: Phase,
    pub transport: Option<T>,
}

impl<T> ValidationSession<T> {
    /// A closed session holds no transport.
    pub open spec fn wf(&self) -> bool {
        self.phase == Phase::Closed ==> self.transport is None
    }

    /// A session over `transport` in which no phase has run.
    pub fn new(transport: T) -> (r: Self)
        ensures
            r.phase == Phase::Created,
            r.transport == Some(transport),
            r.wf(),
    {
        ValidationSession { phase: Phase::Created, transport: Some(transport) }
    }

    /// Where the session stands.
    pub fn phase(&self) -> (r: Phase)
        ensures
            r == self.phase,
    {
        self.phase
    }

    /// Whether `op` may run now; `InvalidState` when it is out of order.
    pub fn check(&self, op: Operation) -> (r: Result<(), SessionError>)
        ensures
            r is Ok <==> permits(self.phase, op),
            r is Err ==> r->Err_0 is InvalidState,
    {
        let required = match op {
            Operation::Initialize => Phase::Created,
            Operation::KeyEstablishment => Phase::Initialized,
            Operation::Sign => Phase::KeyEstablished,
        };
        if self.phase == required {
            Ok(())
        } else {
            Err(SessionError::InvalidState)
        }
    }

    /// Lends the transport out to run `op`. Out of order, or while another
    /// phase holds the transport, it fails with `InvalidState` and leaves the
    /// session unchanged.
    pub fn begin(&mut self, op: Operation) -> (r: Result<T, SessionError>)
        ensures
            r is Ok <==> permits(old(self).phase, op) && old(self).transport is Some,
            r is Ok ==> r->Ok_0 == old(self).transport->Some_0 && final(self).phase == old(
                self,
            ).phase && final(self).transport is None,
            r is Err ==> r->Err_0 is InvalidState && *final(self) == *old(self),
    {
        match self.check(op) {
            Ok(()) => {},
            Err(e) => return Err(e),
        }
        match self.transport.take() {
            Some(t) => Ok(t),
            None => Err(SessionError::InvalidState),
        }
    }

    /// Takes back the transport that `begin` lent out for `op`, and records
    /// whether the phase succeeded: a failed phase leaves the session Failed.
    pub fn end(&mut self, op: Operation, transport: T, succeeded: bool)
        requires
            permits(old(self).phase, op),
            old(self).transport is None,
        ensures
            final(self).phase == after(op, succeeded),
            final(self).transport == Some(transport),
            final(self).wf(),
    {
        self.transport = Some(transport);
        self.phase = if !succeeded {
            Phase::Failed
        } else {
            match op {
                Operation::Initialize => Phase::Initialized,
                Operation::KeyEstablishment => Phase::KeyEstablished,
                Operation::Sign => Phase::Signed,
            }
        };
    }

    /// Closes the session from any phase and hands back the transport for
    /// release; a closed session hands back nothing.
    pub fn close(&mut self) -> (r: Option<T>)
        ensures
            r == old(self).transport,
            old(self).wf() && old(self).phase == Phase::Closed ==> r is None,
            final(self).phase == Phase::Closed,
            final(self).transport is None,
            final(self).wf(),
    {
        self.phase = Phase::Closed;
        self.transport.take()
    }
}

/// Key establishment before initialization, and signing before key
/// establishment, are out of order: `begin` refuses them with `InvalidState`
/// and leaves the session as it was.
pub proof fn lemma_out_of_order(p: Phase)
    ensures
        p == Phase::Created ==> !permits(p, Operation::KeyEstablishment) && !permits(
            p,
            Operation::Sign,
        ),
        p == Phase::Initialized ==> !permits(p, Operation::Sign),
{
}

/// How many transports `n` successive closes hand back, the first close
/// finding `t` in the session: each close hands back what the session holds
/// and leaves it holding nothing.
pub open spec fn handed_back<T>(t: Option<T>, n: nat) -> nat
    decreases n,
{
    if n == 0 {
        0
    } else {
        (if t is Some {
            1nat
        } else {
            0nat
        }) + handed_back::<T>(None, (n - 1) as nat)
    }
}

/// Closing is idempotent: from any phase, including after a failure, any
/// number of closes hands the transport back for release exactly once, or
/// never if the session held none, and leaves it Closed.
pub proof fn lemma_close_idempotent<T>(s: ValidationSession<T>, n: nat)
    requires
        n >= 1,
        s.wf(),
    ensures
        handed_back(s.transport, n) == (if s.transport is Some {
            1nat
        } else {
            0nat
        }),
        s.phase == Phase::Closed ==> handed_back(s.transport, n) == 0,
    decreases n,
{
    lemma_handed_back_once::<T>(s.transport, n);
}

proof fn lemma_handed_back_once<T>(t: Option<T>, n: nat)
    requires
        n >= 1,
    ensures
        handed_back(t, n) == (if t is Some {
            1nat
        } else {
            0nat
        }),
    decreases n,
{
    if n > 1 {
        lemma_handed_back_once::<T>(None, (n - 1) as nat);
    } else {
        assert(handed_back::<T>(None, 0) == 0);
    }
}

} // verus!
