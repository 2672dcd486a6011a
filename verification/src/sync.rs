//! What the bus needs of `std::sync`: a device is shared behind a `Mutex`.
//!
//! The bus hands such a device on and keeps it in its list. It never takes
//! the lock: whoever calls into a device takes it first, and the bus's
//! functions work on the device that the lock gave.

use std::sync::Mutex;
use vstd::prelude::*;

verus! {

/// `std::sync::Mutex`: a value that one thread at a time can reach. The bus
/// never looks inside one.
#[verifier::external_type_specification]
#[verifier::external_body]
#[verifier::reject_recursive_types(T)]
pub struct ExMutex<T: ?Sized>(Mutex<T>);

} // verus!
