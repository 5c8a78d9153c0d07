//! The envelopes in which the service wraps its answers.

use vstd::prelude::*;

verus! {

/// The envelope of the first version of the interface.
#[derive(Debug, Clone, Copy)]
pub struct APIV1Result<T> {
    pub payload: T,
}

/// The envelope of the second version of the interface.
#[derive(Debug, Clone)]
pub struct ApiResult<T> {
    pub api_version: String,
    pub data: T,
}

} // verus!
