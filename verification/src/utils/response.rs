use vstd::prelude::*;

verus! {

/// The envelope of a successful JSON answer: the payload under `data`.
pub struct ActixDemoResponse<T> {
    pub data: T,
}

} // verus!
