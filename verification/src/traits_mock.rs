//! What the negotiation mechanisms have in common.

use vstd::prelude::*;
use crate::generator::{Generator, Task, YieldPoint};
use crate::{Event, UserResponse};

verus! {

/// Whether a failed mechanism leaves room for another one.
#[derive(Debug, Clone, Copy, PartialEq, Eq)]
pub enum FailureKind {
    /// This mechanism said no; another one may be tried in its place.
    Recoverable,
    /// The negotiation as a whole has failed.
    Fatal,
}

/// The failure of a negotiation.
#[derive(Debug, Clone, Copy, PartialEq, Eq)]
pub struct Error {
    pub kind: FailureKind,
}

/// A generator that runs a negotiation.
pub type GeneratorLocal<T> = Generator<Event, UserResponse, Result<u32, Error>, T>;

/// The channel of a negotiation.
pub type YieldPointLocal = YieldPoint<Event, UserResponse>;

/// A mechanism that negotiates in steps, each of which may need an answer from
/// the network.
pub trait MockSSPi: Sized {
    /// The exchange that the mechanism runs.
    type Exchange: Task<Event, UserResponse, Result<u32, Error>>;

    /// The state in which an exchange of this mechanism begins.
    spec fn opening(&self) -> <Self::Exchange as View>::V;

    /// Begins a negotiation: the generator that is returned owns a new
    /// exchange, which was not driven yet.
    fn operations_require_async_io(&mut self) -> (generator: GeneratorLocal<Self::Exchange>)
        ensures
            generator.wf(),
            generator@ == Some(old(self).opening()),
            Self::Exchange::phase(old(self).opening()) is Created,
            *final(self) == *old(self),
    ;
}

} // verus!
