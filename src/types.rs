use vstd::prelude::*;
use std::sync::{Arc, RwLock};

verus! {

/// A value shared between owners, behind a reader-writer lock.
pub type Shared<T> = Arc<RwLock<T>>;

/// std's reader-writer lock, carried as an opaque value.
#[verifier::external_type_specification]
#[verifier::external_body]
#[verifier::reject_recursive_types(T)]
pub struct ExRwLock<T: ?Sized>(RwLock<T>);

/// Relies on std::sync::RwLock::new: it builds an unlocked lock around the value.
pub assume_specification<T>[ RwLock::<T>::new ](t: T) -> (r: RwLock<T>);

/// Wraps a value so that it can be shared and mutated by several owners.
pub fn create_shared_mut<T>(t: T) -> (r: Shared<T>) {
    Arc::new(RwLock::new(t))
}

} // verus!
