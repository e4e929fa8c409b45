//! Drivers: code that runs a generator to its end and answers what it yields.

use vstd::prelude::*;
use crate::generator::{Generator, GeneratorState, Task};
use crate::{Event, UserResponse};

verus! {

/// A fixed way of answering what a generator yields.
pub trait Policy<Y, R> {
    /// There is an answer to `event`.
    spec fn answerable(event: Y) -> bool;

    /// `response` is an answer to `event`.
    spec fn answers(event: Y, response: R) -> bool;
}

/// A driver that answers what a generator yields by its policy.
pub trait GeneratorHandler<Y, R, O>: Policy<Y, R> + Sized {
    /// Runs `generator` from its start to its end, answers each value that
    /// it yields, and returns its output.
    ///
    /// The run has to come to an end, whichever of its answers the handler
    /// gives. The output is then that of a run in which every suspension
    /// was resumed with an answer of the handler to what it had yielded.
    fn handle<T: Task<Y, R, O>>(&mut self, generator: &mut Generator<Y, R, O, T>) -> (out: O)
        requires
            old(generator).wf(),
            old(generator)@ is Some,
            Generator::<Y, R, O, T>::lifecycle(old(generator)@) is Created,
            exists|fuel: nat| settles::<Y, R, O, Self, T>(old(generator)@->0, None, fuel),
        ensures
            final(generator).wf(),
            final(generator)@ is Some,
            Generator::<Y, R, O, T>::lifecycle(final(generator)@) is Completed,
            exists|fuel: nat| produces::<Y, R, O, Self, T>(old(generator)@->0, None, fuel, out),
    ;

    /// A copy of the handler on the heap.
    fn box_clone(&self) -> (copy: Box<Self>)
        ensures
            *copy == *self,
    ;
}

/// A task in `state` that takes its next step on `input` completes within
/// `fuel` steps, if each suspension on the way is resumed with an answer of
/// the policy `H`, whichever answer that is; and the policy has an answer
/// to everything that the task yields on the way.
pub open spec fn settles<Y, R, O, H: Policy<Y, R>, T: Task<Y, R, O>>(
    state: T::V,
    input: Option<R>,
    fuel: nat,
) -> bool
    decreases fuel,
{
    fuel > 0 && match T::step(state, input).1 {
        GeneratorState::Completed(_) => true,
        GeneratorState::Suspended(event) => {
            &&& H::answerable(event)
            &&& forall|response: R| #[trigger]
                H::answers(event, response) ==> settles::<Y, R, O, H, T>(
                    T::step(state, input).0,
                    Some(response),
                    (fuel - 1) as nat,
                )
        },
    }
}

/// A task in `state` that takes its next step on `input` can complete with
/// `out` within `fuel` steps, when each suspension on the way is resumed with
/// an answer of the policy `H` to what was yielded.
pub open spec fn produces<Y, R, O, H: Policy<Y, R>, T: Task<Y, R, O>>(
    state: T::V,
    input: Option<R>,
    fuel: nat,
    out: O,
) -> bool
    decreases fuel,
{
    fuel > 0 && match T::step(state, input).1 {
        GeneratorState::Completed(output) => output == out,
        GeneratorState::Suspended(event) => exists|response: R| #[trigger]
            H::answers(event, response) && produces::<Y, R, O, H, T>(
                T::step(state, input).0,
                Some(response),
                (fuel - 1) as nat,
                out,
            ),
    }
}

/// If the next step of a task suspends, `response` is an answer of the policy
/// to what it yields, and the run that goes on from there can produce `out`,
/// then so can the run from here.
proof fn lemma_produces_extends<Y, R, O, H: Policy<Y, R>, T: Task<Y, R, O>>(
    state: T::V,
    input: Option<R>,
    response: R,
    fuel: nat,
    out: O,
)
    requires
        fuel > 0,
        T::step(state, input).1 matches GeneratorState::Suspended(event) && H::answers(
            event,
            response,
        ),
        produces::<Y, R, O, H, T>(T::step(state, input).0, Some(response), (fuel - 1) as nat, out),
    ensures
        produces::<Y, R, O, H, T>(state, input, fuel, out),
{
}

/// A handler that answers a request with three bytes and a length with that
/// length.
pub struct DemoHandler {}

impl DemoHandler {
    /// The answer to `event`: the bytes 1, 2, 3 to a request, and to a
    /// payload length that length as a number. A length that no `u32` holds
    /// has no answer.
    pub fn respond(event: Event) -> (response: UserResponse)
        requires
            <Self as Policy<Event, UserResponse>>::answerable(event),
        ensures
            <Self as Policy<Event, UserResponse>>::answers(event, response),
    {
        match event {
            Event::HttpRequest { url } => UserResponse::Payload(vec![1, 2, 3]),
            Event::PayloadLen(len) => UserResponse::SomeValue(u32::try_from(len).unwrap()),
        }
    }
}

impl Policy<Event, UserResponse> for DemoHandler {
    open spec fn answerable(event: Event) -> bool {
        event matches Event::PayloadLen(len) ==> len <= u32::MAX
    }

    open spec fn answers(event: Event, response: UserResponse) -> bool {
        match event {
            Event::HttpRequest { .. } => response matches UserResponse::Payload(bytes) && bytes@
                == seq![1u8, 2u8, 3u8],
            Event::PayloadLen(len) => len <= u32::MAX && response == UserResponse::SomeValue(
                len as u32,
            ),
        }
    }

}

impl<O> GeneratorHandler<Event, UserResponse, O> for DemoHandler {
    fn handle<T: Task<Event, UserResponse, O>>(
        &mut self,
        generator: &mut Generator<Event, UserResponse, O, T>,
    ) -> (out: O) {
        let ghost first = generator@->0;
        let ghost budget = choose|fuel: nat| settles::<Event, UserResponse, O, Self, T>(first, None, fuel);
        let ghost mut state = first;
        let ghost mut input: Option<UserResponse> = None;
        let ghost mut fuel = budget;
        let mut outcome = generator.start().unwrap();
        loop
            invariant
                first == old(generator)@->0,
                generator.wf(),
                generator@ == Some(T::step(state, input).0),
                outcome == T::step(state, input).1,
                settles::<Event, UserResponse, O, Self, T>(state, input, fuel),
                forall|out: O|
                    produces::<Event, UserResponse, O, Self, T>(state, input, fuel, out)
                        ==> produces::<Event, UserResponse, O, Self, T>(first, None, budget, out),
            decreases fuel,
        {
            proof {
                T::step_sets_phase(state, input);
            }
            match outcome {
                GeneratorState::Suspended(event) => {
                    let response = Self::respond(event);
                    proof {
                        let next = T::step(state, input).0;
                        assert forall|out: O|
                            produces::<Event, UserResponse, O, Self, T>(
                                next,
                                Some(response),
                                (fuel - 1) as nat,
                                out,
                            ) implies produces::<Event, UserResponse, O, Self, T>(
                            first,
                            None,
                            budget,
                            out,
                        ) by {
                            lemma_produces_extends::<Event, UserResponse, O, Self, T>(
                                state,
                                input,
                                response,
                                fuel,
                                out,
                            );
                        }
                        state = next;
                        input = Some(response);
                        fuel = (fuel - 1) as nat;
                    }
                    outcome = generator.resume(response).unwrap();
                },
                GeneratorState::Completed(out) => {
                    assert(produces::<Event, UserResponse, O, Self, T>(state, input, fuel, out));
                    assert(produces::<Event, UserResponse, O, Self, T>(first, None, budget, out));
                    return out;
                },
            }
        }
    }

    fn box_clone(&self) -> (copy: Box<Self>) {
        Box::new(DemoHandler {  })
    }
}

} // verus!
