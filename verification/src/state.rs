use vstd::prelude::*;

use std::sync::Mutex;

verus! {

#[verifier::external_type_specification]
#[verifier::external_body]
#[verifier::reject_recursive_types(T)]
pub struct ExMutex<T: ?Sized>(Mutex<T>);

/// The text to be translated, shared between the windows of the application.
pub struct StringWrapper(pub Mutex<String>);

} // verus!
