//! The reader-writer lock around the fabric's state.
//!
//! What a lock holds changes behind a shared reference, so it is no part of the lock's value.
//! Three names speak of it instead: what the lock was made with, what it held at some moment
//! of its life, and from what to what a writer took it. Writers come through here alone, and
//! each makes one operation of the fabric, so whatever the lock is found to hold was reached
//! by such operations from what it was made with. And writers come one at a time, so of two
//! changes one begins where operations led after the other had ended.
//!
//! A thread that has the lock and asks for it again waits for itself. The operations of the
//! fabric do not ask while they have it.

use crate::inner::FabricInner;
use crate::model::{FabricStep, FabricView};
use parking_lot::RwLock;
use vstd::prelude::*;

verus! {

/// `parking_lot`'s word of lock state.
#[verifier::external_type_specification]
#[verifier::external_body]
pub struct ExRawRwLock(parking_lot::RawRwLock);

/// `parking_lot`'s reader-writer lock, which is `lock_api`'s over the above.
#[verifier::external_type_specification]
#[verifier::external_body]
#[verifier::reject_recursive_types(R)]
#[verifier::reject_recursive_types(T)]
pub struct ExRwLock<R, T: ?Sized>(parking_lot::lock_api::RwLock<R, T>);

/// What the lock was made with.
pub uninterp spec fn made_with(lock: RwLock<FabricInner>) -> FabricView;

/// At some moment of its life the lock held this while a reader looked.
pub uninterp spec fn was_read(lock: RwLock<FabricInner>, held: FabricView) -> bool;

/// At some moment of its life the lock was taken by a writer while it held `before`, and
/// given back holding `after`, with no other reader or writer in between.
pub uninterp spec fn was_written(
    lock: RwLock<FabricInner>,
    before: FabricView,
    after: FabricView,
) -> bool;

/// `RwLock::new`: makes a lock that holds `inner`.
#[verifier::external_body]
pub(crate) fn make(inner: FabricInner) -> (lock: RwLock<FabricInner>)
    ensures
        made_with(lock) == inner@,
{
    RwLock::new(inner)
}

/// `RwLock::read`: waits until no writer has the lock, lets `look` see what it holds, and
/// gives the lock back. Returned are the answer of `look` and, for proofs, what it saw. Which
/// state that is depends on the other threads; stated is that operations of the fabric reach
/// it from what the lock was made with, and that every change came before it or after it.
/// Reading changes nothing, and opens no invariant.
#[verifier::external_body]
pub(crate) fn read<Out, Look: FnOnce(&FabricInner) -> Out>(
    lock: &RwLock<FabricInner>,
    look: Look,
) -> (seen: (Out, Ghost<FabricView>))
    requires
        forall|held: &FabricInner| call_requires(look, (held,)),
    ensures
        exists|held: &FabricInner| #[trigger]
            call_ensures(look, (held,), seen.0) && held@ == seen.1@,
        was_read(*lock, seen.1@),
        FabricStep::reaches(made_with(*lock), seen.1@),
        forall|before: FabricView, after: FabricView| #[trigger]
            was_written(*lock, before, after) ==> FabricStep::reaches(after, seen.1@)
                || FabricStep::reaches(seen.1@, before),
    opens_invariants none
{
    let held = lock.read();
    (look(&held), Ghost((*held)@))
}

/// `RwLock::write`: waits until nobody has the lock, lets `change` work on what it holds, and
/// gives the lock back. Returned are the answer of `change` and, for proofs, what it found
/// and what it left. Which state it finds depends on the other threads; stated is that
/// operations of the fabric reach it from what the lock was made with, and that every other
/// change came before this one or after it. Writing counts as opening an invariant, so what
/// may open none can read but not write.
#[verifier::external_body]
pub(crate) fn write<Out, Change: FnOnce(&mut FabricInner) -> Out>(
    lock: &RwLock<FabricInner>,
    change: Change,
) -> (done: (Out, Ghost<FabricView>, Ghost<FabricView>))
    requires
        forall|held: &mut FabricInner| call_requires(change, (held,)),
        forall|held: &mut FabricInner, out: Out| #[trigger]
            call_ensures(change, (held,), out) ==> FabricStep::leads(
                (*held)@,
                (*final(held))@,
            ),
    ensures
        exists|held: &mut FabricInner| #[trigger]
            call_ensures(change, (held,), done.0) && (*held)@ == done.1@ && (*final(held))@
                == done.2@,
        was_written(*lock, done.1@, done.2@),
        FabricStep::reaches(made_with(*lock), done.1@),
        forall|before: FabricView, after: FabricView| #[trigger]
            was_written(*lock, before, after) ==> FabricStep::in_turn(
                before,
                after,
                done.1@,
                done.2@,
            ),
{
    let mut held = lock.write();
    let before = Ghost((*held)@);
    let out = change(&mut held);
    (out, before, Ghost((*held)@))
}

} // verus!
