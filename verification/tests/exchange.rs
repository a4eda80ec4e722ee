use kasa_power::exchange::{Exchange, ExchangeAction, ExchangeEvent, ExchangeState};
use kasa_power::protocol::{encode_message, request_frame};

fn take(exchange: &mut Exchange, event: ExchangeEvent) {
    assert!(exchange.can_step(&event));
    exchange.step(event);
}

#[test]
fn request_goes_out_and_answer_comes_in() {
    let mut x = Exchange::new();
    let request = request_frame();
    assert_eq!(x.action(), ExchangeAction::Write(request.header.to_vec()));
    take(&mut x, ExchangeEvent::Written);
    assert_eq!(x.action(), ExchangeAction::Write(request.body));
    take(&mut x, ExchangeEvent::Written);
    assert_eq!(x.action(), ExchangeAction::Read(4));
    let answer = encode_message(br#"{"system":{}}"#);
    take(&mut x, ExchangeEvent::Read(answer.header.to_vec()));
    assert_eq!(x.action(), ExchangeAction::Read(13));
    take(&mut x, ExchangeEvent::Read(answer.body));
    assert_eq!(x.action(), ExchangeAction::Finish);
    match x.state {
        ExchangeState::Ended(Some(reply)) => assert_eq!(reply, br#"{"system":{}}"#),
        other => panic!("{other:?}"),
    }
}

#[test]
fn failure_at_any_point_ends_without_an_answer() {
    for good in 0..4 {
        let mut x = Exchange::new();
        for i in 0..good {
            take(
                &mut x,
                if i < 2 { ExchangeEvent::Written } else { ExchangeEvent::Read(vec![0, 0, 0, 1]) },
            );
        }
        take(&mut x, ExchangeEvent::Failed);
        assert_eq!(x.action(), ExchangeAction::Finish);
        assert!(matches!(x.state, ExchangeState::Ended(None)));
    }
}

#[test]
fn outcomes_out_of_turn_and_short_reads_are_refused() {
    let mut x = Exchange::new();
    assert!(!x.can_step(&ExchangeEvent::Read(vec![0; 4])));
    take(&mut x, ExchangeEvent::Written);
    assert!(!x.can_step(&ExchangeEvent::Read(vec![0; 4])));
    take(&mut x, ExchangeEvent::Written);
    assert!(!x.can_step(&ExchangeEvent::Written));
    assert!(!x.can_step(&ExchangeEvent::Read(vec![0; 3])));
    take(&mut x, ExchangeEvent::Read(vec![0, 0, 1, 2]));
    assert_eq!(x.action(), ExchangeAction::Read(258));
    assert!(!x.can_step(&ExchangeEvent::Written));
    assert!(!x.can_step(&ExchangeEvent::Read(vec![0; 257])));
    take(&mut x, ExchangeEvent::Read(vec![0; 258]));
    assert!(!x.can_step(&ExchangeEvent::Failed));
}

#[test]
fn empty_answer_is_an_answer() {
    let mut x = Exchange::new();
    take(&mut x, ExchangeEvent::Written);
    take(&mut x, ExchangeEvent::Written);
    take(&mut x, ExchangeEvent::Read(vec![0, 0, 0, 0]));
    assert_eq!(x.action(), ExchangeAction::Read(0));
    take(&mut x, ExchangeEvent::Read(vec![]));
    assert!(matches!(x.state, ExchangeState::Ended(Some(reply)) if reply.is_empty()));
}
