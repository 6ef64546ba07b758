//! The single shared database, behind one lock.

use crate::db::Database;
use vstd::prelude::*;
use vstd::string::to_string_from_display_ensures;

verus! {

/// `std::sync::Mutex`, the lock around the database.
#[verifier::external_type_specification]
#[verifier::external_body]
#[verifier::reject_recursive_types(T)]
pub struct ExMutex<T: ?Sized>(std::sync::Mutex<T>);

/// `std::sync::MutexGuard`, the held lock.
#[verifier::external_type_specification]
#[verifier::external_body]
#[verifier::reject_recursive_types(T)]
pub struct ExMutexGuard<'a, T: ?Sized + 'a>(std::sync::MutexGuard<'a, T>);

/// What every operation works on: the one database of the process. Each
/// operation holds the lock from its first step to its last.
pub struct AppState {
    pub db: std::sync::Mutex<Database>,
}

/// `std::sync::PoisonError`, the failure to take a lock whose earlier holder
/// panicked.
#[verifier::external_type_specification]
#[verifier::external_body]
#[verifier::reject_recursive_types(T)]
pub struct ExPoisonError<T>(std::sync::PoisonError<T>);

/// `Mutex::lock`: waits for the lock and takes it. It fails where an earlier
/// holder panicked; nothing here says when that is.
#[verifier::external_body]
pub(crate) fn lock<'a>(state: &'a AppState) -> (held: Result<
    std::sync::MutexGuard<'a, Database>,
    std::sync::PoisonError<std::sync::MutexGuard<'a, Database>>,
>) {
    state.db.lock()
}

/// A message that renders a failure to take the lock.
pub open spec fn lock_message(message: String) -> bool {
    exists|poisoned: std::sync::PoisonError<std::sync::MutexGuard<'static, Database>>|
        to_string_from_display_ensures(&poisoned, message)
}

/// The result of taking the lock, given what the lock answered: the held
/// lock, or the failure to take it as its message.
pub fn held<'a>(
    outcome: Result<
        std::sync::MutexGuard<'a, Database>,
        std::sync::PoisonError<std::sync::MutexGuard<'a, Database>>,
    >,
) -> (taken: Result<std::sync::MutexGuard<'a, Database>, String>)
    ensures
        match outcome {
            Ok(guard) => taken == Ok::<std::sync::MutexGuard<'a, Database>, String>(guard),
            Err(poisoned) => taken is Err && to_string_from_display_ensures(
                &poisoned,
                taken->Err_0,
            ),
        },
{
    match outcome {
        Ok(guard) => Ok(guard),
        Err(poisoned) => Err(poisoned.to_string()),
    }
}

/// Takes the lock. A failure to take it comes back as its message.
pub(crate) fn acquire<'a>(state: &'a AppState) -> (taken: Result<
    std::sync::MutexGuard<'a, Database>,
    String,
>)
    ensures
        taken matches Err(message) ==> lock_message(message),
{
    held(lock(state))
}

/// `MutexGuard::deref`: the database that a held lock guards.
#[verifier::external_body]
pub(crate) fn guarded<'a, 'b>(held: &'a std::sync::MutexGuard<'b, Database>) -> (db: &'a Database) {
    held
}

} // verus!
