use vstd::prelude::*;

verus! {

/// What a slot holds after `capture` has seen `outcome` while it held `pending`.
///
/// A normal result leaves the slot as it was. An error payload is stored when
/// the slot is empty; when the slot already holds a payload, the first one is
/// kept and the new one is dropped, so that nothing already captured is lost.
pub open spec fn captured<R, P>(pending: Option<P>, outcome: Result<R, P>) -> Option<P> {
    match outcome {
        Result::Ok(_) => pending,
        Result::Err(e) => match pending {
            Option::Some(_) => pending,
            Option::None => Option::Some(e),
        },
    }
}

/// What `capture` returns on `outcome`: the value of a normal completion, or
/// `None`, the sentinel that tells the adapter an error was captured.
pub open spec fn capture_result<R, P>(outcome: Result<R, P>) -> Option<R> {
    match outcome {
        Result::Ok(v) => Option::Some(v),
        Result::Err(_) => Option::None,
    }
}

/// A drain of a slot that holds `pending`: what is taken out, and what is left.
pub open spec fn drained<P>(pending: Option<P>) -> (Option<P>, Option<P>) {
    (pending, Option::None)
}

/// The pending-unwind slot of one execution context: at most one error
/// payload, waiting to be raised again in native code.
pub struct UnwindSlot<P> {
    pending: Option<P>,
}

impl<P> View for UnwindSlot<P> {
    type V = Option<P>;

    closed spec fn view(&self) -> Option<P> {
        self.pending
    }
}

impl<P> UnwindSlot<P> {
    /// An empty slot.
    pub fn new() -> (r: Self)
        ensures
            r@ is None,
    {
        UnwindSlot { pending: Option::None }
    }

    /// Whether a payload is waiting to be raised again.
    pub fn is_occupied(&self) -> (r: bool)
        ensures
            r == self@ is Some,
    {
        self.pending.is_some()
    }

    /// Records the outcome of a computation run inside an unwind-catching
    /// scope. A normal result is handed back unchanged and leaves the slot
    /// alone; an error payload is kept in the slot (the first one wins while
    /// the slot is occupied) and `None` is returned in its place.
    pub fn capture<R>(&mut self, outcome: Result<R, P>) -> (r: Option<R>)
        ensures
            r == capture_result(outcome),
            final(self)@ == captured(old(self)@, outcome),
    {
        match outcome {
            Result::Ok(v) => Option::Some(v),
            Result::Err(e) => {
                if self.pending.is_none() {
                    self.pending = Option::Some(e);
                }
                Option::None
            },
        }
    }

    /// Takes the pending payload out of the slot, leaving it empty. A caller
    /// that gets `Some` raises that payload again; on `None` nothing was
    /// pending and there is nothing to do.
    pub fn drain(&mut self) -> (r: Option<P>)
        ensures
            (r, final(self)@) == drained(old(self)@),
    {
        self.pending.take()
    }
}

/// No escape: when the computation given to `capture` fails, `capture`
/// returns the sentinel `None` and keeps the failure in the slot instead of
/// passing it on; the slot is occupied afterwards.
pub proof fn lemma_no_escape<R, P>(pending: Option<P>, e: P)
    ensures
        capture_result::<R, P>(Result::Err(e)) is None,
        captured::<R, P>(pending, Result::Err(e)) is Some,
{
}

/// Faithful replay: an error payload captured into an empty slot is exactly
/// the payload that the next drain hands back, and the slot is empty after it.
pub proof fn lemma_faithful_replay<R, P>(pending: Option<P>, e: P)
    requires
        pending is None,
    ensures
        drained(captured::<R, P>(pending, Result::Err(e))) == (Option::Some(e), Option::<P>::None),
{
}

/// Idempotent drain: of two drains in a row, the second takes nothing and
/// leaves the slot empty, so at most one of them raises.
pub proof fn lemma_drain_idempotent<P>(pending: Option<P>)
    ensures
        drained(drained(pending).1) == (Option::<P>::None, Option::<P>::None),
{
}

/// Empty-slot no-op: draining an empty slot takes nothing and leaves it empty.
pub proof fn lemma_drain_empty_is_noop<P>()
    ensures
        drained(Option::<P>::None) == (Option::<P>::None, Option::<P>::None),
{
}

/// A normal completion never touches the slot: whatever it held before is
/// what a drain takes afterwards.
pub proof fn lemma_normal_completion_keeps_slot<R, P>(pending: Option<P>, v: R)
    ensures
        captured::<R, P>(pending, Result::Ok(v)) == pending,
        capture_result::<R, P>(Result::Ok(v)) == Option::Some(v),
{
}

/// Two failures with no drain between them: the slot keeps the first payload,
/// and a drain hands back that one alone.
pub proof fn lemma_first_capture_wins<R, P>(pending: Option<P>, e1: P, e2: P)
    requires
        pending is None,
    ensures
        captured::<R, P>(captured::<R, P>(pending, Result::Err(e1)), Result::Err(e2)) == Option::Some(e1),
{
}

} // verus!
