use stable_generators::generator::{Interrupt, YieldPoint};
use stable_generators::traits_mock::YieldPointLocal;
use stable_generators::{Event, UserResponse};

#[test]
fn new_channel_holds_nothing() {
    let mut point: YieldPoint<u8, u8> = YieldPoint::new();
    assert_eq!(point.collect(), None);
}

#[test]
fn token_round_trip() {
    let mut point: YieldPoint<&str, u32> = YieldPoint::new();
    let mut token: Interrupt<&str, u32> = point.suspend("question");
    assert_eq!(token.poll(&mut point), None);
    assert_eq!(point.collect(), Some("question"));
    assert_eq!(point.collect(), None);
    point.deposit(42);
    assert_eq!(token.poll(&mut point), Some(42));
}

#[test]
fn token_hands_out_the_last_deposit() {
    let mut point: YieldPoint<u8, u32> = YieldPoint::new();
    let mut token = point.suspend(5);
    assert_eq!(token.poll(&mut point), None);
    assert_eq!(point.collect(), Some(5));
    point.deposit(1);
    point.deposit(2);
    assert_eq!(token.poll(&mut point), Some(2));
    let mut next = point.suspend(6);
    assert_eq!(next.poll(&mut point), None);
    assert_eq!(point.collect(), Some(6));
}

#[test]
fn first_inspection_leaves_the_resume_cell_alone() {
    let mut point: YieldPoint<u8, u32> = YieldPoint::new();
    let mut token = point.suspend(9);
    assert_eq!(token.poll(&mut point), None);
    point.deposit(77);
    assert_eq!(point.collect(), Some(9));
    assert_eq!(token.poll(&mut point), Some(77));
}

#[test]
fn suspensions_are_answered_in_order() {
    let mut point: YieldPoint<u32, u32> = YieldPoint::new();
    let values = [10u32, 20, 30, 40, 50];
    let answers = [7u32, 7, 3, 9, 1];
    let mut surfaced = Vec::new();
    let mut delivered = Vec::new();
    for i in 0..values.len() {
        let mut token = point.suspend(values[i]);
        assert_eq!(token.poll(&mut point), None);
        surfaced.push(point.collect().unwrap());
        point.deposit(answers[i]);
        delivered.push(token.poll(&mut point).unwrap());
    }
    assert_eq!(surfaced, values.to_vec());
    assert_eq!(delivered, answers.to_vec());
    assert_eq!(point.collect(), None);
}

#[test]
fn negotiation_channel_carries_events_and_responses() {
    let mut point = YieldPointLocal::new();
    let mut token = point.suspend(Event::PayloadLen(3));
    assert_eq!(token.poll(&mut point), None);
    assert_eq!(point.collect(), Some(Event::PayloadLen(3)));
    point.deposit(UserResponse::Payload(vec![1, 2, 3]));
    assert_eq!(token.poll(&mut point), Some(UserResponse::Payload(vec![1, 2, 3])));
}

#[test]
fn spent_token_hands_out_nothing() {
    let mut point: YieldPoint<u8, u32> = YieldPoint::new();
    let mut token = point.suspend(1);
    assert_eq!(token.poll(&mut point), None);
    assert_eq!(point.collect(), Some(1));
    point.deposit(11);
    assert_eq!(token.poll(&mut point), Some(11));
    point.deposit(12);
    assert_eq!(token.poll(&mut point), None);
    assert_eq!(token.poll(&mut point), None);
    assert_eq!(point.collect(), None);
    point.deposit(13);
    let mut fresh = point.suspend(2);
    assert_eq!(fresh.poll(&mut point), None);
    assert_eq!(point.collect(), Some(2));
    assert_eq!(fresh.poll(&mut point), Some(13));
}
