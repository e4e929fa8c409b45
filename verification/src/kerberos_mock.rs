//! A mechanism that asks the peer once and accepts small numbers.

use vstd::prelude::*;
use crate::generator::{GeneratorState, Interrupt, Phase, Task, YieldPoint};
use crate::traits_mock::{Error, FailureKind, GeneratorLocal, MockSSPi};
use crate::{Event, UserResponse};

verus! {

/// The largest number that the mechanism accepts from the peer.
pub const ACCEPTED_MAX: u32 = 100;

/// A mechanism that sends one request to `url` and judges the answer.
pub struct MockKerberos {
    pub url: String,
}

/// The state of one exchange with the peer.
pub struct KerberosState {
    pub url: String,
    pub phase: Phase,
}

/// One exchange of `MockKerberos`: a request, a pause until the answer is
/// there, and the verdict on it.
pub struct KerberosTask {
    url: String,
    phase: Phase,
    request: Option<Interrupt<Event, UserResponse>>,
}

/// The verdict on what the peer answered. A number up to `ACCEPTED_MAX` is
/// the result of the negotiation. Anything else is a failure after which
/// another mechanism may be tried.
pub open spec fn verdict(answer: Option<UserResponse>) -> Result<u32, Error> {
    match answer {
        Some(UserResponse::SomeValue(value)) if value <= ACCEPTED_MAX => Ok(value),
        _ => Err(Error { kind: FailureKind::Recoverable }),
    }
}

impl View for KerberosTask {
    type V = KerberosState;

    closed spec fn view(&self) -> KerberosState {
        KerberosState { url: self.url, phase: self.phase }
    }
}

impl KerberosTask {
    /// An exchange with the peer at `url` that was not driven yet.
    pub fn new(url: String) -> (task: Self)
        ensures
            task.inv(),
            task@ == (KerberosState { url, phase: Phase::Created }),
    {
        KerberosTask { url, phase: Phase::Created, request: None }
    }

    /// Judges the peer's answer.
    fn judge(answer: UserResponse) -> (result: Result<u32, Error>)
        ensures
            result == verdict(Some(answer)),
    {
        match answer {
            UserResponse::SomeValue(value) => {
                if value <= ACCEPTED_MAX {
                    Ok(value)
                } else {
                    Err(Error { kind: FailureKind::Recoverable })
                }
            },
            UserResponse::Payload(_) => Err(Error { kind: FailureKind::Recoverable }),
        }
    }
}

impl Task<Event, UserResponse, Result<u32, Error>> for KerberosTask {
    closed spec fn inv(&self) -> bool {
        match self.phase {
            Phase::Running => self.request matches Some(token) && token@ is Awaiting,
            _ => self.request is None,
        }
    }

    open spec fn phase(state: KerberosState) -> Phase {
        state.phase
    }

    open spec fn step(state: KerberosState, input: Option<UserResponse>) -> (
        KerberosState,
        GeneratorState<Event, Result<u32, Error>>,
    ) {
        match state.phase {
            Phase::Created => (
                KerberosState { url: state.url, phase: Phase::Running },
                GeneratorState::Suspended(Event::HttpRequest { url: state.url }),
            ),
            _ => (
                KerberosState { url: state.url, phase: Phase::Completed },
                GeneratorState::Completed(verdict(input)),
            ),
        }
    }

    proof fn step_sets_phase(state: KerberosState, input: Option<UserResponse>) {
    }

    fn poll(&mut self, point: &mut YieldPoint<Event, UserResponse>) -> (out: Option<
        Result<u32, Error>,
    >) {
        match self.phase {
            Phase::Created => {
                let mut token = point.suspend(Event::HttpRequest { url: self.url.clone() });
                let answer = token.poll(point);
                self.request = Some(token);
                self.phase = Phase::Running;
                match answer {
                    Some(answer) => Some(Self::judge(answer)),
                    None => None,
                }
            },
            _ => {
                let mut token = self.request.take().unwrap();
                let answer = token.poll(point);
                self.phase = Phase::Completed;
                Some(Self::judge(answer.unwrap()))
            },
        }
    }
}

impl MockKerberos {
    /// A mechanism that will talk to the peer at `url`.
    pub fn new(url: String) -> (mechanism: Self)
        ensures
            mechanism.url == url,
    {
        MockKerberos { url }
    }
}

impl MockSSPi for MockKerberos {
    type Exchange = KerberosTask;

    open spec fn opening(&self) -> KerberosState {
        KerberosState { url: self.url, phase: Phase::Created }
    }

    fn operations_require_async_io(&mut self) -> (generator: GeneratorLocal<KerberosTask>) {
        let mut generator = GeneratorLocal::new_empty();
        generator.accept_yield_point(YieldPoint::new());
        generator.accept_task(KerberosTask::new(self.url.clone()));
        generator
    }
}

} // verus!
