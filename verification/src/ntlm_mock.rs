//! A mechanism that needs nothing from the peer.

use vstd::prelude::*;
use crate::generator::{Generator, Ready};
use crate::traits_mock::{Error, GeneratorLocal, MockSSPi};

verus! {

/// The result of every negotiation of `MockNtlm`.
pub const NTLM_RESULT: u32 = 10;

/// A mechanism that succeeds at once, without a suspension.
pub struct MockNtlm;

/// One exchange of `MockNtlm`: it completes on its first step.
pub type NtlmTask = Ready<Result<u32, Error>>;

impl MockSSPi for MockNtlm {
    type Exchange = NtlmTask;

    open spec fn opening(&self) -> Option<Result<u32, Error>> {
        Some(Ok(NTLM_RESULT))
    }

    fn operations_require_async_io(&mut self) -> (generator: GeneratorLocal<NtlmTask>) {
        Generator::new(Ready::new(Ok(NTLM_RESULT)))
    }
}

} // verus!
