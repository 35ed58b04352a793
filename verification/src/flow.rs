//! Credit-based flow control for LAIC transport.
//!
//! The controller is external to the transport: callers decide which
//! messages consume credits (data) and which are exempt (control,
//! heartbeat). Credits are `u16`, the width of the header's
//! `credit_grant` field.
use vstd::prelude::*;

use crate::error::FlowError;

verus! {

/// Sender-side credit tracker for backpressure enforcement.
pub struct CreditController {
    available: u16,
}

impl View for CreditController {
    type V = u16;

    closed spec fn view(&self) -> u16 {
        self.available
    }
}

/// Credits after the peer grants `credits` more: saturating at `u16::MAX`.
pub open spec fn replenished(available: u16, credits: u16) -> u16 {
    if available + credits > u16::MAX {
        u16::MAX
    } else {
        (available + credits) as u16
    }
}

impl CreditController {
    /// Create a controller with `initial_credits` available.
    pub fn new(initial_credits: u16) -> (r: Self)
        ensures
            r@ == initial_credits,
    {
        CreditController { available: initial_credits }
    }

    /// Consume one credit, or fail with `CreditExhausted` (leaving the
    /// controller unchanged) when none remain.
    pub fn acquire(&mut self) -> (r: Result<(), FlowError>)
        ensures
            old(self)@ == 0 ==> r == Err::<(), FlowError>(FlowError::CreditExhausted)
                && final(self)@ == 0,
            old(self)@ > 0 ==> r is Ok && final(self)@ == old(self)@ - 1,
    {
        if self.available == 0 {
            return Err(FlowError::CreditExhausted);
        }
        self.available = self.available - 1;
        Ok(())
    }

    /// Add credits granted by the peer, saturating at `u16::MAX`.
    pub fn replenish(&mut self, credits: u16)
        ensures
            final(self)@ == replenished(old(self)@, credits),
    {
        self.available = self.available.saturating_add(credits);
    }

    /// Current number of available credits.
    pub fn available(&self) -> (r: u16)
        ensures
            r == self@,
    {
        self.available
    }
}

/// One operation on a credit controller.
pub enum CreditOp {
    /// Try to consume one credit.
    Acquire,
    /// The peer grants this many credits.
    Replenish(u16),
}

/// Credits left and acquisitions granted after running `ops` from
/// `available` credits.
pub open spec fn run_ops(available: u16, ops: Seq<CreditOp>) -> (u16, nat)
    decreases ops.len(),
{
    if ops.len() == 0 {
        (available, 0)
    } else {
        let (left, granted) = run_ops(available, ops.drop_last());
        match ops.last() {
            CreditOp::Acquire => if left > 0 {
                ((left - 1) as u16, granted + 1)
            } else {
                (left, granted)
            },
            CreditOp::Replenish(c) => (replenished(left, c), granted),
        }
    }
}

/// All credits the peer grants in `ops`.
pub open spec fn total_granted(ops: Seq<CreditOp>) -> nat
    decreases ops.len(),
{
    if ops.len() == 0 {
        0
    } else {
        total_granted(ops.drop_last()) + match ops.last() {
            CreditOp::Acquire => 0nat,
            CreditOp::Replenish(c) => c as nat,
        }
    }
}

/// Backpressure holds over any run: the acquisitions granted plus the
/// credits still available never exceed the initial credits plus all the
/// credits the peer granted, with equality while no grant saturated.
pub proof fn lemma_credits_conserved(available: u16, ops: Seq<CreditOp>)
    ensures
        run_ops(available, ops).0 + run_ops(available, ops).1 <= available + total_granted(ops),
        available + total_granted(ops) <= u16::MAX ==> run_ops(available, ops).0 + run_ops(
            available,
            ops,
        ).1 == available + total_granted(ops),
    decreases ops.len(),
{
    if ops.len() > 0 {
        lemma_credits_conserved(available, ops.drop_last());
        let (left, granted) = run_ops(available, ops.drop_last());
        match ops.last() {
            CreditOp::Acquire => {},
            CreditOp::Replenish(c) => {
                assert(total_granted(ops) == total_granted(ops.drop_last()) + c);
            },
        }
    }
}

/// A controller created with `n` credits grants exactly `n` acquisitions
/// in a row, then refuses.
pub proof fn lemma_acquires_until_exhausted(n: u16, k: nat)
    ensures
        run_ops(n, Seq::new(k, |i: int| CreditOp::Acquire)) == (
            if k <= n {
                ((n - k) as u16, k)
            } else {
                (0u16, n as nat)
            }
        ),
    decreases k,
{
    if k > 0 {
        let ops = Seq::new(k, |i: int| CreditOp::Acquire);
        assert(ops.drop_last() =~= Seq::new((k - 1) as nat, |i: int| CreditOp::Acquire));
        lemma_acquires_until_exhausted(n, (k - 1) as nat);
    }
}

} // verus!
