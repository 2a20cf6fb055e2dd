//! The admission limiter: a bounded counter gating an expensive endpoint.
//! Acquisition never blocks; an exhausted limiter refuses immediately.

use vstd::prelude::*;

use crate::error::AppError;

verus! {

#[verifier::external_type_specification]
#[verifier::external_body]
pub struct ExSemaphore(tokio::sync::Semaphore);

/// Relies on tokio's `Semaphore::new`. The bound stays well under tokio's
/// permit ceiling, so construction cannot panic.
#[verifier::external_body]
fn semaphore_new(permits: usize) -> (r: tokio::sync::Semaphore)
    requires
        permits <= 0x0fff_ffff,
{
    tokio::sync::Semaphore::new(permits)
}

/// Relies on tokio's `Semaphore::try_acquire`: either a permit is taken and
/// kept out of the semaphore (`forget`), or the semaphore was empty and
/// nothing changed. Whether a permit is available depends on the other
/// holders, so nothing is promised of the outcome.
#[verifier::external_body]
fn semaphore_try_acquire_one(sem: &tokio::sync::Semaphore) -> (acquired: bool) {
    match sem.try_acquire() {
        Ok(permit) => {
            permit.forget();
            true
        },
        Err(_) => false,
    }
}

/// Relies on tokio's `Semaphore::add_permits`: returns one permit. Callers
/// pair each call with an earlier successful acquisition, which keeps the
/// permit count at most the bound it was created with.
#[verifier::external_body]
fn semaphore_add_one(sem: &tokio::sync::Semaphore) {
    sem.add_permits(1);
}

/// A non-blocking cap on the number of operations in flight. Each successful
/// `try_acquire` must be paired with exactly one later `release`.
pub struct Limiter {
    sem: tokio::sync::Semaphore,
}

impl Limiter {
    /// A limiter admitting at most `cap` holders at once.
    pub fn new(cap: usize) -> Limiter
        requires
            cap <= 0x0fff_ffff,
    {
        Limiter { sem: semaphore_new(cap) }
    }

    /// Try to take one slot; false when the cap is exhausted.
    pub fn try_acquire(&self) -> bool {
        semaphore_try_acquire_one(&self.sem)
    }

    /// Give a slot back. Call only after a successful `try_acquire`.
    pub fn release(&self) {
        semaphore_add_one(&self.sem);
    }

    /// Enter the limited section or be refused immediately: the only error
    /// this can report is `TooManyRequests`. On entry the caller holds a
    /// slot and must `release` it on every exit path.
    pub fn enter(&self) -> (r: Result<(), AppError>)
        ensures
            r matches Err(e) ==> e == AppError::TooManyRequests,
    {
        if self.try_acquire() {
            Ok(())
        } else {
            Err(AppError::TooManyRequests)
        }
    }
}

} // verus!
