use faucet::{decide_next, Emit, EmitPoll, Faucet, FaucetSharedData, NextStep, ProducerAction, ScriptStart, WakeSlot};
use std::rc::Rc;

fn pull_until_end(f: &mut Faucet<ScriptStart<i32>>, max_polls: usize) -> (Vec<i32>, bool) {
    let mut values: Vec<i32> = Vec::new();
    let mut ended = false;
    let mut polls: usize = 0;
    while polls < max_polls {
        polls += 1;
        match f.poll_next() {
            NextStep::Value(v) => values.push(v),
            NextStep::End => {
                ended = true;
                break;
            }
            NextStep::Pending => {}
        }
    }
    (values, ended)
}

#[test]
fn basic_test() {
    let script = vec![
        ProducerAction::Emit(1),
        ProducerAction::Pause,
        ProducerAction::Emit(2),
        ProducerAction::Pause,
        ProducerAction::Emit(3),
        ProducerAction::Pause,
        ProducerAction::Emit(4),
    ];
    let mut f = Faucet::new(ScriptStart { script });
    let list = f.collect_values();
    assert_eq!(list, [1, 2, 3, 4]);
    assert!(matches!(f.poll_next(), NextStep::End));
}

#[test]
fn end_is_idempotent() {
    let script = vec![
        ProducerAction::Emit(10),
        ProducerAction::Pause,
        ProducerAction::Emit(20),
    ];
    let mut f = Faucet::new(ScriptStart { script });
    let (list, ended) = pull_until_end(&mut f, 100);
    assert_eq!(list, [10, 20]);
    assert!(ended);
    assert!(matches!(f.poll_next(), NextStep::End));
    assert!(matches!(f.poll_next(), NextStep::End));
    assert!(matches!(f.poll_next(), NextStep::End));
}

#[test]
fn empty_producer_ends_on_first_pull() {
    let mut f = Faucet::new(ScriptStart { script: Vec::<ProducerAction<i32>>::new() });
    assert!(matches!(f.poll_next(), NextStep::End));
    assert!(matches!(f.poll_next(), NextStep::End));
}

#[test]
fn hanging_producer_yields_its_value_then_stays_pending() {
    let script = vec![ProducerAction::Emit(42), ProducerAction::Hang];
    let mut f = Faucet::new(ScriptStart { script });
    assert!(matches!(f.poll_next(), NextStep::Value(42)));
    let mut polls: usize = 0;
    while polls < 10 {
        polls += 1;
        assert!(matches!(f.poll_next(), NextStep::Pending));
    }
    drop(f);
}

#[test]
fn values_come_back_to_back_without_pauses() {
    let script = vec![
        ProducerAction::Emit(5),
        ProducerAction::Emit(6),
        ProducerAction::Pause,
        ProducerAction::Pause,
        ProducerAction::Emit(7),
    ];
    let mut f = Faucet::new(ScriptStart { script });
    assert!(matches!(f.poll_next(), NextStep::Value(5)));
    assert!(matches!(f.poll_next(), NextStep::Value(6)));
    assert!(matches!(f.poll_next(), NextStep::Pending));
    assert!(matches!(f.poll_next(), NextStep::Pending));
    assert!(matches!(f.poll_next(), NextStep::Value(7)));
    assert!(matches!(f.poll_next(), NextStep::End));
}

#[test]
fn discarded_midway_tears_down_cleanly() {
    let probe = Rc::new(0);
    let script = vec![
        ProducerAction::Emit(probe.clone()),
        ProducerAction::Emit(probe.clone()),
        ProducerAction::Emit(probe.clone()),
        ProducerAction::Emit(probe.clone()),
    ];
    let mut f = Faucet::new(ScriptStart { script });
    assert_eq!(Rc::strong_count(&probe), 5);
    let mut received: Vec<Rc<i32>> = Vec::new();
    match f.poll_next() {
        NextStep::Value(v) => received.push(v),
        _ => panic!("expected a value"),
    }
    match f.poll_next() {
        NextStep::Value(v) => received.push(v),
        _ => panic!("expected a value"),
    }
    assert_eq!(received.len(), 2);
    drop(f);
    assert_eq!(Rc::strong_count(&probe), 3);
    drop(received);
    assert_eq!(Rc::strong_count(&probe), 1);
}

#[test]
fn emit_is_rejected_until_the_deposit_is_extracted() {
    let mut shared: FaucetSharedData<i32> = FaucetSharedData::new();
    let mut emitter: Emit<i32> = Emit::new();

    let mut first = emitter.emit(5);
    assert!(matches!(first.poll(&mut shared), EmitPoll::Delivered));

    let mut second = emitter.emit(6);
    assert!(matches!(second.poll(&mut shared), EmitPoll::Rejected));
    assert!(matches!(second.poll(&mut shared), EmitPoll::Rejected));

    assert_eq!(shared.extract(), Some(5));
    assert!(matches!(first.poll(&mut shared), EmitPoll::Ready));

    assert!(matches!(second.poll(&mut shared), EmitPoll::Delivered));
    assert_eq!(shared.extract(), Some(6));
    assert_eq!(shared.extract(), None);
}

#[test]
fn wake_consumes_the_registration() {
    let mut w = WakeSlot::new();
    assert!(!w.wake());
    w.register();
    assert!(w.wake());
    assert!(!w.wake());
}

#[test]
fn pull_outcome_follows_deposit_and_completion() {
    assert!(matches!(decide_next(Some(3), false), NextStep::Value(3)));
    assert!(matches!(decide_next(Some(3), true), NextStep::Value(3)));
    assert!(matches!(decide_next::<i32>(None, true), NextStep::End));
    assert!(matches!(decide_next::<i32>(None, false), NextStep::Pending));
}
