use stable_generators::generator::{Generator, GeneratorState, ProtocolViolation, Ready, Task, YieldPoint};
use stable_generators::kerberos_mock::KerberosTask;
use stable_generators::negotiate_mock::Negotiation;
use stable_generators::traits_mock::{Error, FailureKind, GeneratorLocal, YieldPointLocal};
use stable_generators::{Event, UserResponse};

fn request(url: &str) -> Event {
    Event::HttpRequest { url: url.to_string() }
}

fn kerberos(url: &str) -> GeneratorLocal<KerberosTask> {
    Generator::new(KerberosTask::new(url.to_string()))
}

#[test]
fn start_reports_the_first_suspension() {
    let mut generator = kerberos("peer");
    assert_eq!(generator.start(), Ok(GeneratorState::Suspended(request("peer"))));
}

#[test]
fn resume_before_start_is_a_violation() {
    let mut generator = kerberos("peer");
    assert_eq!(generator.resume(UserResponse::SomeValue(1)), Err(ProtocolViolation::NotStarted));
    assert_eq!(generator.start(), Ok(GeneratorState::Suspended(request("peer"))));
    assert_eq!(generator.resume(UserResponse::SomeValue(1)), Ok(GeneratorState::Completed(Ok(1))));
}

#[test]
fn second_start_is_a_violation() {
    let mut generator = kerberos("peer");
    assert_eq!(generator.start(), Ok(GeneratorState::Suspended(request("peer"))));
    assert_eq!(generator.start(), Err(ProtocolViolation::AlreadyStarted));
    assert_eq!(generator.resume(UserResponse::SomeValue(5)), Ok(GeneratorState::Completed(Ok(5))));
}

#[test]
fn completed_generator_never_moves_again() {
    let mut generator = kerberos("peer");
    assert_eq!(generator.start(), Ok(GeneratorState::Suspended(request("peer"))));
    assert_eq!(generator.resume(UserResponse::SomeValue(5)), Ok(GeneratorState::Completed(Ok(5))));
    for _ in 0..3 {
        assert_eq!(generator.start(), Err(ProtocolViolation::AlreadyCompleted));
        assert_eq!(
            generator.resume(UserResponse::SomeValue(6)),
            Err(ProtocolViolation::AlreadyCompleted)
        );
    }
}

#[test]
fn violation_differs_from_a_failed_negotiation() {
    let mut generator = kerberos("peer");
    assert_eq!(generator.start(), Ok(GeneratorState::Suspended(request("peer"))));
    let failed = generator.resume(UserResponse::Payload(vec![1, 2, 3]));
    assert_eq!(failed, Ok(GeneratorState::Completed(Err(Error { kind: FailureKind::Recoverable }))));
    let misuse = generator.resume(UserResponse::Payload(vec![1, 2, 3]));
    assert_eq!(misuse, Err(ProtocolViolation::AlreadyCompleted));
    assert_ne!(failed, misuse);
}

#[test]
fn generator_without_a_task_cannot_be_driven() {
    let mut generator: GeneratorLocal<KerberosTask> = Generator::new_empty();
    assert_eq!(generator.start(), Err(ProtocolViolation::NoTask));
    assert_eq!(generator.resume(UserResponse::SomeValue(1)), Err(ProtocolViolation::NoTask));
    generator.accept_task(KerberosTask::new("late".to_string()));
    assert_eq!(generator.start(), Ok(GeneratorState::Suspended(request("late"))));
    assert_eq!(generator.resume(UserResponse::SomeValue(3)), Ok(GeneratorState::Completed(Ok(3))));
}

#[test]
fn accepted_task_starts_anew() {
    let mut generator = kerberos("first");
    assert_eq!(generator.start(), Ok(GeneratorState::Suspended(request("first"))));
    assert_eq!(generator.resume(UserResponse::SomeValue(1)), Ok(GeneratorState::Completed(Ok(1))));
    generator.accept_task(KerberosTask::new("second".to_string()));
    assert_eq!(generator.resume(UserResponse::SomeValue(2)), Err(ProtocolViolation::NotStarted));
    assert_eq!(generator.start(), Ok(GeneratorState::Suspended(request("second"))));
    assert_eq!(generator.resume(UserResponse::SomeValue(2)), Ok(GeneratorState::Completed(Ok(2))));
}

#[test]
fn generator_runs_over_a_given_channel() {
    let point = YieldPointLocal::new();
    let mut generator = Generator::new_with_yield_point(point, KerberosTask::new("peer".to_string()));
    assert_eq!(generator.start(), Ok(GeneratorState::Suspended(request("peer"))));
    generator.accept_yield_point(YieldPoint::new());
    assert_eq!(generator.start(), Err(ProtocolViolation::AlreadyStarted));
}

#[test]
fn accepted_channel_serves_the_next_suspension() {
    let mut generator: GeneratorLocal<KerberosTask> = Generator::new_empty();
    generator.accept_yield_point(YieldPointLocal::new());
    generator.accept_task(KerberosTask::new("peer".to_string()));
    assert_eq!(generator.start(), Ok(GeneratorState::Suspended(request("peer"))));
    assert_eq!(generator.resume(UserResponse::SomeValue(100)), Ok(GeneratorState::Completed(Ok(100))));
}

#[test]
fn started_and_discarded() {
    let mut generator = kerberos("peer");
    assert_eq!(generator.start(), Ok(GeneratorState::Suspended(request("peer"))));
    drop(generator);
    let mut other = kerberos("peer");
    assert_eq!(other.start(), Ok(GeneratorState::Suspended(request("peer"))));
    assert_eq!(other.resume(UserResponse::SomeValue(4)), Ok(GeneratorState::Completed(Ok(4))));
}

#[test]
fn each_resume_value_reaches_its_own_suspension() {
    let chain = Negotiation::new(
        KerberosTask::new("a".to_string()),
        Negotiation::new(
            KerberosTask::new("b".to_string()),
            Negotiation::new(KerberosTask::new("c".to_string()), KerberosTask::new("d".to_string())),
        ),
    );
    let mut generator = Generator::new(chain);
    assert_eq!(generator.start(), Ok(GeneratorState::Suspended(request("a"))));
    assert_eq!(
        generator.resume(UserResponse::SomeValue(101)),
        Ok(GeneratorState::Suspended(request("b")))
    );
    assert_eq!(
        generator.resume(UserResponse::Payload(vec![])),
        Ok(GeneratorState::Suspended(request("c")))
    );
    assert_eq!(
        generator.resume(UserResponse::SomeValue(u32::MAX)),
        Ok(GeneratorState::Suspended(request("d")))
    );
    assert_eq!(generator.resume(UserResponse::SomeValue(42)), Ok(GeneratorState::Completed(Ok(42))));
}

#[test]
fn early_success_skips_the_rest_of_the_chain() {
    let chain = Negotiation::new(
        KerberosTask::new("a".to_string()),
        Negotiation::new(KerberosTask::new("b".to_string()), KerberosTask::new("c".to_string())),
    );
    let mut generator = Generator::new(chain);
    assert_eq!(generator.start(), Ok(GeneratorState::Suspended(request("a"))));
    assert_eq!(
        generator.resume(UserResponse::SomeValue(200)),
        Ok(GeneratorState::Suspended(request("b")))
    );
    assert_eq!(generator.resume(UserResponse::SomeValue(2)), Ok(GeneratorState::Completed(Ok(2))));
    assert_eq!(generator.resume(UserResponse::SomeValue(3)), Err(ProtocolViolation::AlreadyCompleted));
}

#[test]
fn inner_generator_suspends_through_the_outer_one() {
    let inner = kerberos("inner");
    let mut outer = Generator::new(inner);
    assert_eq!(outer.start(), Ok(GeneratorState::Suspended(request("inner"))));
    assert_eq!(outer.resume(UserResponse::SomeValue(8)), Ok(GeneratorState::Completed(Ok(8))));
    assert_eq!(outer.start(), Err(ProtocolViolation::AlreadyCompleted));
}

#[test]
fn task_is_advanced_over_a_lent_channel() {
    let mut point = YieldPointLocal::new();
    let mut task = KerberosTask::new("peer".to_string());
    assert_eq!(task.poll(&mut point), None);
    assert_eq!(point.collect(), Some(request("peer")));
    point.deposit(UserResponse::SomeValue(100));
    assert_eq!(task.poll(&mut point), Some(Ok(100)));
    assert_eq!(point.collect(), None);
    let mut ready: Ready<Result<u32, Error>> = Ready::new(Ok(10));
    assert_eq!(ready.poll(&mut point), Some(Ok(10)));
    assert_eq!(point.collect(), None);
}

#[test]
fn ready_task_completes_on_the_first_step() {
    let mut generator: Generator<u8, u8, &str, Ready<&str>> = Generator::new(Ready::new("done"));
    assert_eq!(generator.resume(1), Err(ProtocolViolation::NotStarted));
    assert_eq!(generator.start(), Ok(GeneratorState::Completed("done")));
    assert_eq!(generator.resume(1), Err(ProtocolViolation::AlreadyCompleted));
}
