//! A negotiation that tries one mechanism and falls back on a second one.

use vstd::prelude::*;
use crate::client::{produces, settles, DemoHandler, GeneratorHandler};
use crate::generator::{Generator, GeneratorState, Phase, Task, YieldPoint};
use crate::kerberos_mock::{KerberosState, KerberosTask, MockKerberos};
use crate::ntlm_mock::{MockNtlm, NtlmTask, NTLM_RESULT};
use crate::traits_mock::{Error, FailureKind, GeneratorLocal, MockSSPi};
use crate::{Event, UserResponse};

verus! {

/// A producer made of two: it runs `primary`, and if that one fails in a way
/// that leaves room for another mechanism, it runs `fallback` in its place.
/// Both are advanced over the channel that the composite itself is given, so
/// a suspension of either pauses the composite as a whole.
pub enum Negotiation<P, F> {
    /// The primary producer is under way. The fallback was not driven yet.
    TryingPrimary { primary: P, fallback: F },
    /// The primary producer has failed and the fallback is under way.
    TryingFallback { fallback: F },
    /// The negotiation has reported its result.
    Done,
}

/// The state of a `Negotiation`, over the states of its two producers.
pub enum NegotiationState<P, F> {
    TryingPrimary(P, F),
    TryingFallback(F),
    Done,
}

impl<P: View, F: View> View for Negotiation<P, F> {
    type V = NegotiationState<P::V, F::V>;

    open spec fn view(&self) -> NegotiationState<P::V, F::V> {
        match self {
            Negotiation::TryingPrimary { primary, fallback } => NegotiationState::TryingPrimary(
                primary@,
                fallback@,
            ),
            Negotiation::TryingFallback { fallback } => NegotiationState::TryingFallback(fallback@),
            Negotiation::Done => NegotiationState::Done,
        }
    }
}

/// What a step of the fallback producer means for the composite: the
/// composite pauses where the fallback pauses, and ends with whatever the
/// fallback ends with.
pub open spec fn after_fallback<P, F>(
    next: F,
    outcome: GeneratorState<Event, Result<u32, Error>>,
) -> (NegotiationState<P, F>, GeneratorState<Event, Result<u32, Error>>) {
    match outcome {
        GeneratorState::Suspended(_) => (NegotiationState::TryingFallback(next), outcome),
        GeneratorState::Completed(_) => (NegotiationState::Done, outcome),
    }
}

impl<P, F> Negotiation<P, F> where
    P: Task<Event, UserResponse, Result<u32, Error>>,
    F: Task<Event, UserResponse, Result<u32, Error>>,
 {
    /// A negotiation that will try `primary` first. Neither producer may have
    /// been driven before.
    pub fn new(primary: P, fallback: F) -> (negotiation: Self)
        requires
            primary.inv(),
            P::phase(primary@) is Created,
            fallback.inv(),
            F::phase(fallback@) is Created,
        ensures
            negotiation.inv(),
            negotiation@ == NegotiationState::TryingPrimary(primary@, fallback@),
    {
        Negotiation::TryingPrimary { primary, fallback }
    }
}

impl<P, F> Task<Event, UserResponse, Result<u32, Error>> for Negotiation<P, F> where
    P: Task<Event, UserResponse, Result<u32, Error>>,
    F: Task<Event, UserResponse, Result<u32, Error>>,
 {
    open spec fn inv(&self) -> bool {
        match self {
            Negotiation::TryingPrimary { primary, fallback } => {
                &&& primary.inv()
                &&& fallback.inv()
                &&& F::phase(fallback@) is Created
            },
            Negotiation::TryingFallback { fallback } => fallback.inv(),
            Negotiation::Done => true,
        }
    }

    open spec fn phase(state: NegotiationState<P::V, F::V>) -> Phase {
        match state {
            NegotiationState::TryingPrimary(primary, _) => P::phase(primary),
            NegotiationState::TryingFallback(fallback) => F::phase(fallback),
            NegotiationState::Done => Phase::Completed,
        }
    }

    open spec fn step(state: NegotiationState<P::V, F::V>, input: Option<UserResponse>) -> (
        NegotiationState<P::V, F::V>,
        GeneratorState<Event, Result<u32, Error>>,
    ) {
        match state {
            NegotiationState::TryingPrimary(primary, fallback) => {
                let (next, outcome) = P::step(primary, input);
                match outcome {
                    GeneratorState::Suspended(_) => (
                        NegotiationState::TryingPrimary(next, fallback),
                        outcome,
                    ),
                    GeneratorState::Completed(Err(error)) if error.kind is Recoverable => {
                        let (started, first) = F::step(fallback, None);
                        after_fallback(started, first)
                    },
                    GeneratorState::Completed(_) => (NegotiationState::Done, outcome),
                }
            },
            NegotiationState::TryingFallback(fallback) => {
                let (next, outcome) = F::step(fallback, input);
                after_fallback(next, outcome)
            },
            NegotiationState::Done => (
                NegotiationState::Done,
                GeneratorState::Completed(arbitrary()),
            ),
        }
    }

    proof fn step_sets_phase(state: NegotiationState<P::V, F::V>, input: Option<UserResponse>) {
        match state {
            NegotiationState::TryingPrimary(primary, fallback) => {
                P::step_sets_phase(primary, input);
                F::step_sets_phase(fallback, None);
            },
            NegotiationState::TryingFallback(fallback) => {
                F::step_sets_phase(fallback, input);
            },
            NegotiationState::Done => {},
        }
    }

    fn poll(&mut self, point: &mut YieldPoint<Event, UserResponse>) -> (out: Option<
        Result<u32, Error>,
    >) {
        let mut current = Negotiation::Done;
        std::mem::swap(self, &mut current);
        match current {
            Negotiation::TryingPrimary { mut primary, mut fallback } => {
                match primary.poll(point) {
                    None => {
                        *self = Negotiation::TryingPrimary { primary, fallback };
                        None
                    },
                    Some(Ok(value)) => Some(Ok(value)),
                    Some(Err(error)) => match error.kind {
                        FailureKind::Recoverable => {
                            let first = fallback.poll(point);
                            if first.is_none() {
                                *self = Negotiation::TryingFallback { fallback };
                            }
                            first
                        },
                        FailureKind::Fatal => Some(Err(error)),
                    },
                }
            },
            Negotiation::TryingFallback { mut fallback } => {
                let outcome = fallback.poll(point);
                if outcome.is_none() {
                    *self = Negotiation::TryingFallback { fallback };
                }
                outcome
            },
            Negotiation::Done => None,
        }
    }
}

/// How far a negotiation has come: 0 while the primary producer runs, 1 while
/// the fallback runs, 2 at the end.
pub open spec fn stage<P, F>(state: NegotiationState<P, F>) -> nat {
    match state {
        NegotiationState::TryingPrimary(_, _) => 0,
        NegotiationState::TryingFallback(_) => 1,
        NegotiationState::Done => 2,
    }
}

/// A negotiation never goes back: no step leads from the fallback to the
/// primary producer, nor from the end to either of them.
pub proof fn lemma_never_back<P, F>(state: NegotiationState<P::V, F::V>, input: Option<UserResponse>)
    where
        P: Task<Event, UserResponse, Result<u32, Error>>,
        F: Task<Event, UserResponse, Result<u32, Error>>,

    ensures
        stage(Negotiation::<P, F>::step(state, input).0) >= stage(state),
{
}

/// A suspension of the producer that is under way is the suspension of the
/// negotiation: the negotiation yields the value that the producer yields,
/// stays at the producer, which has taken that one step on the value that the
/// negotiation was resumed with, and leaves the other producer untouched.
pub proof fn lemma_inner_suspension_surfaces<P, F>(
    state: NegotiationState<P::V, F::V>,
    input: Option<UserResponse>,
)
    where
        P: Task<Event, UserResponse, Result<u32, Error>>,
        F: Task<Event, UserResponse, Result<u32, Error>>,

    ensures
        state matches NegotiationState::TryingPrimary(primary, fallback) ==> (P::step(
            primary,
            input,
        ).1 is Suspended ==> Negotiation::<P, F>::step(state, input) == (
            NegotiationState::<P::V, F::V>::TryingPrimary(P::step(primary, input).0, fallback),
            P::step(primary, input).1,
        )),
        state matches NegotiationState::TryingFallback(fallback) ==> (F::step(
            fallback,
            input,
        ).1 is Suspended ==> Negotiation::<P, F>::step(state, input) == (
            NegotiationState::<P::V, F::V>::TryingFallback(F::step(fallback, input).0),
            F::step(fallback, input).1,
        )),
{
}

/// No result is lost. What the primary producer ends with is the result of
/// the negotiation, unless it is a failure that leaves room for another
/// mechanism: then the fallback takes its first step at once, and the
/// negotiation goes on as the fallback does. What the fallback ends with is
/// the result of the negotiation, whatever it is.
pub proof fn lemma_results_are_kept<P, F>(
    state: NegotiationState<P::V, F::V>,
    input: Option<UserResponse>,
)
    where
        P: Task<Event, UserResponse, Result<u32, Error>>,
        F: Task<Event, UserResponse, Result<u32, Error>>,

    ensures
        state matches NegotiationState::TryingPrimary(primary, fallback) ==> (P::step(
            primary,
            input,
        ).1 matches GeneratorState::Completed(result) ==> Negotiation::<P, F>::step(state, input)
            == (if result is Err && result->Err_0.kind is Recoverable {
            after_fallback::<P::V, F::V>(F::step(fallback, None).0, F::step(fallback, None).1)
        } else {
            (NegotiationState::<P::V, F::V>::Done, GeneratorState::Completed(result))
        })),
        state matches NegotiationState::TryingFallback(fallback) ==> Negotiation::<P, F>::step(
            state,
            input,
        ).1 == F::step(fallback, input).1,
        state matches NegotiationState::TryingFallback(fallback) ==> (F::step(
            fallback,
            input,
        ).1 is Completed ==> Negotiation::<P, F>::step(state, input).0 is Done),
{
}

/// The negotiation that `AnotherPossibleNegotiate` runs: Kerberos first, NTLM
/// as the fallback, each in a generator of its own.
pub type NegotiateExchange = Negotiation<GeneratorLocal<KerberosTask>, GeneratorLocal<NtlmTask>>;

/// A mechanism that negotiates with the peer at `url` by Kerberos and falls
/// back on NTLM.
pub struct AnotherPossibleNegotiate {
    pub url: String,
}

impl MockSSPi for AnotherPossibleNegotiate {
    type Exchange = NegotiateExchange;

    open spec fn opening(&self) -> NegotiationState<
        Option<KerberosState>,
        Option<Option<Result<u32, Error>>>,
    > {
        NegotiationState::TryingPrimary(
            Some(KerberosState { url: self.url, phase: Phase::Created }),
            Some(Some(Ok(NTLM_RESULT))),
        )
    }

    fn operations_require_async_io(&mut self) -> (generator: GeneratorLocal<NegotiateExchange>) {
        let mut kerb = MockKerberos { url: self.url.clone() };
        let mut ntlm = MockNtlm {  };
        let primary = kerb.operations_require_async_io();
        let fallback = ntlm.operations_require_async_io();
        Generator::new(Negotiation::new(primary, fallback))
    }
}

impl AnotherPossibleNegotiate {
    /// Runs a negotiation from its start to its end, with `handler` as the
    /// driver. The handler answers the request of the Kerberos exchange with
    /// bytes, which that exchange does not accept, so the negotiation falls
    /// back on NTLM and ends with its result.
    pub fn negotiate(&mut self, handler: &mut DemoHandler) -> (result: Result<u32, Error>)
        ensures
            result == Ok::<u32, Error>(NTLM_RESULT),
            *final(self) == *old(self),
    {
        let mut generator = self.operations_require_async_io();
        proof {
            reveal_with_fuel(settles, 3);
            assert(settles::<Event, UserResponse, Result<u32, Error>, DemoHandler, NegotiateExchange>(
                generator@->0,
                None,
                2,
            ));
        }
        let ghost opening = generator@->0;
        let result = handler.handle(&mut generator);
        proof {
            reveal_with_fuel(produces, 3);
            let fuel = choose|fuel: nat|
                produces::<Event, UserResponse, Result<u32, Error>, DemoHandler, NegotiateExchange>(
                    opening,
                    None,
                    fuel,
                    result,
                );
            assert(produces::<Event, UserResponse, Result<u32, Error>, DemoHandler, NegotiateExchange>(
                opening,
                None,
                fuel,
                result,
            ));
        }
        result
    }
}

} // verus!
