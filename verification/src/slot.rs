//! The spin lock that guards each slot, as far as the verifier is told of it.
//!
//! Everything in this file is taken on trust: the types are opaque, and the
//! functions are believed to return, with nothing said of what they return.
//! None of them waits: a lock is only ever tried.
//! A lock changes behind a shared reference, so whether an attempt succeeds
//! and what a guard then shows depend on the other holders of the lock, not on
//! any argument a contract could speak of.

use vstd::prelude::*;

verus! {

/// `spin::relax::Spin`, the strategy by which a blocked lock waits. Opaque.
#[verifier::external_type_specification]
#[verifier::external_body]
pub struct ExSpin(spin::relax::Spin);

/// `spin::rwlock::RwLock`, a lock around one value that admits either any
/// number of readers or one writer. Opaque.
#[verifier::external_type_specification]
#[verifier::external_body]
#[verifier::reject_recursive_types(T)]
#[verifier::reject_recursive_types(R)]
pub struct ExRwLock<T: ?Sized, R>(spin::rwlock::RwLock<T, R>);

/// `spin::rwlock::RwLockReadGuard`, shared access to the value of a lock,
/// given up when the guard is dropped. Opaque.
#[verifier::external_type_specification]
#[verifier::external_body]
#[verifier::reject_recursive_types(T)]
pub struct ExRwLockReadGuard<'a, T: ?Sized>(spin::rwlock::RwLockReadGuard<'a, T>);

/// `spin::rwlock::RwLockWriteGuard`, exclusive access to the value of a lock,
/// given up when the guard is dropped. Opaque.
#[verifier::external_type_specification]
#[verifier::external_body]
#[verifier::reject_recursive_types(T)]
#[verifier::reject_recursive_types(R)]
pub struct ExRwLockWriteGuard<'a, T: 'a + ?Sized, R>(spin::rwlock::RwLockWriteGuard<'a, T, R>);

/// `spin::rwlock::RwLock::new` wraps `data` in an unlocked lock. It always
/// returns; nothing is claimed of the lock it returns.
pub assume_specification<T, R>[ spin::rwlock::RwLock::<T, R>::new ](
    data: T,
) -> spin::rwlock::RwLock<T, R>;

/// `spin::rwlock::RwLock::try_read` asks for shared access without waiting.
/// Nothing is claimed of the answer: it is `None` while a writer or an
/// upgradeable reader holds the lock. The call is taken to return, although it
/// panics once the readers of one lock number more than an eighth of
/// `usize::MAX`, which only guards that were leaked can bring about.
pub assume_specification<'a, T: ?Sized, R>[ spin::rwlock::RwLock::<T, R>::try_read ](
    lock: &'a spin::rwlock::RwLock<T, R>,
) -> Option<spin::rwlock::RwLockReadGuard<'a, T>>;

/// `spin::rwlock::RwLock::try_write` asks for exclusive access without
/// waiting. It always returns; nothing is claimed of the answer: it is `None`
/// while anyone else holds the lock.
pub assume_specification<'a, T: ?Sized, R>[ spin::rwlock::RwLock::<T, R>::try_write ](
    lock: &'a spin::rwlock::RwLock<T, R>,
) -> Option<spin::rwlock::RwLockWriteGuard<'a, T, R>>;

/// `core::mem::drop` ends the life of `value` at the call. For a guard this
/// is the moment at which the lock is given up.
pub assume_specification<T>[ core::mem::drop::<T> ](value: T);

/// `Deref::deref` of `spin::rwlock::RwLockReadGuard`: a reference to the
/// value the guard gives shared access to. Nothing is claimed of the value.
#[verifier::external_body]
pub(crate) fn shared_ref<'b, T>(guard: &'b spin::RwLockReadGuard<'_, T>) -> &'b T {
    &**guard
}

/// `Deref::deref` of `spin::rwlock::RwLockWriteGuard`: a reference to the
/// value the guard gives exclusive access to. Nothing is claimed of the value.
#[verifier::external_body]
pub(crate) fn exclusive_ref<'b, T>(guard: &'b spin::RwLockWriteGuard<'_, T>) -> &'b T {
    &**guard
}

/// `DerefMut::deref_mut` of `spin::rwlock::RwLockWriteGuard`: a mutable
/// reference to the value the guard gives exclusive access to. Nothing is
/// claimed of the value, before or after.
#[verifier::external_body]
pub(crate) fn exclusive_mut<'b, T>(guard: &'b mut spin::RwLockWriteGuard<'_, T>) -> &'b mut T {
    &mut **guard
}

} // verus!
