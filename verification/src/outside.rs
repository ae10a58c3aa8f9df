use vstd::prelude::*;
use libloading::Error as LoadError;

verus! {

/// `libloading::Error`, carried as it is: nothing in this library looks inside it.
#[verifier::external_type_specification]
#[verifier::external_body]
pub struct ExLoadError(LoadError);

} // verus!
