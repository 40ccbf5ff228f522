use vstd::prelude::*;

verus! {

/// A proof as the service hands it out: the proof bytes and the public
/// inputs it was made for. The client does not look inside either.
#[derive(Debug, Clone)]
pub struct ProofData {
    pub proof: Vec<u8>,
    pub public_inputs: Vec<u8>,
}

} // verus!
