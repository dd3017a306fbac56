use std::sync::mpsc;

use galaga::{decode_message, event_action, resolve_events, GameAction, ServerEvent, ServerEventHandler};

#[test]
fn shoot_scenario_with_threshold_500() {
    let e = decode_message("{\"action\":\"shoot\",\"value\":800}").unwrap();
    assert_eq!(resolve_events(&vec![e], 500), Some(GameAction::Shoot));
    let e = decode_message("{\"action\":\"shoot\",\"value\":300}").unwrap();
    assert_eq!(resolve_events(&vec![e], 500), None);
}

#[test]
fn values_beyond_i32_still_qualify() {
    let e = decode_message("{\"action\":\"right\",\"value\":2147483648}").unwrap();
    assert_eq!(e, ServerEvent::RightPeak(2147483648));
    assert_eq!(resolve_events(&vec![e], 500), Some(GameAction::MoveRight));
    let e = decode_message("{\"action\":\"left\",\"value\":4294967796}").unwrap();
    assert_eq!(resolve_events(&vec![e], 4294967797), None);
    let e = decode_message("{\"action\":\"shoot\",\"value\":18446744073709551615}").unwrap();
    assert_eq!(resolve_events(&vec![e], i64::MAX), Some(GameAction::Shoot));
}

#[test]
fn threshold_is_inclusive() {
    assert_eq!(resolve_events(&vec![ServerEvent::RightPeak(500)], 500), Some(GameAction::MoveRight));
    assert_eq!(resolve_events(&vec![ServerEvent::RightPeak(499)], 500), None);
}

#[test]
fn each_kind_maps_to_its_action() {
    assert_eq!(resolve_events(&vec![ServerEvent::RightPeak(900)], 500), Some(GameAction::MoveRight));
    assert_eq!(resolve_events(&vec![ServerEvent::LeftPeak(900)], 500), Some(GameAction::MoveLeft));
    assert_eq!(resolve_events(&vec![ServerEvent::ShootPeak(900)], 500), Some(GameAction::Shoot));
}

#[test]
fn empty_batch_gives_nothing() {
    assert_eq!(resolve_events(&vec![], 500), None);
    assert_eq!(resolve_events(&vec![], i64::MIN), None);
}

#[test]
fn lifecycle_events_never_act() {
    let batch = vec![ServerEvent::ConnectionEstablished, ServerEvent::ConnectionLost];
    assert_eq!(resolve_events(&batch, i64::MIN), None);
    assert_eq!(event_action(&ServerEvent::ConnectionEstablished, i64::MIN), None);
}

#[test]
fn many_events_below_threshold_give_nothing() {
    let mut batch = Vec::new();
    for i in 0..1000 {
        batch.push(match i % 3 {
            0 => ServerEvent::RightPeak(499),
            1 => ServerEvent::LeftPeak(-5),
            _ => ServerEvent::ShootPeak(i),
        });
    }
    assert_eq!(resolve_events(&batch, 1000), None);
}

#[test]
fn earliest_qualifying_event_wins() {
    let batch = vec![
        ServerEvent::ConnectionEstablished,
        ServerEvent::ShootPeak(100),
        ServerEvent::LeftPeak(700),
        ServerEvent::RightPeak(900),
        ServerEvent::ShootPeak(950),
    ];
    assert_eq!(resolve_events(&batch, 500), Some(GameAction::MoveLeft));
    assert_eq!(resolve_events(&batch, 800), Some(GameAction::MoveRight));
    assert_eq!(resolve_events(&batch, 100), Some(GameAction::Shoot));
}

#[test]
fn extreme_thresholds() {
    assert_eq!(resolve_events(&vec![ServerEvent::LeftPeak(i64::MAX - 1)], i64::MAX), None);
    assert_eq!(resolve_events(&vec![ServerEvent::LeftPeak(i64::MAX)], i64::MAX), Some(GameAction::MoveLeft));
    assert_eq!(resolve_events(&vec![ServerEvent::LeftPeak(i64::MIN)], i64::MIN), Some(GameAction::MoveLeft));
}

#[test]
fn handler_drains_in_order_and_resolves_once_per_tick() {
    let (tx, rx) = mpsc::channel();
    let mut handler = ServerEventHandler::new(rx);
    tx.send(ServerEvent::ConnectionEstablished).unwrap();
    tx.send(ServerEvent::ShootPeak(800)).unwrap();
    tx.send(ServerEvent::RightPeak(900)).unwrap();
    assert_eq!(handler.process_events_for_game(500), Some(GameAction::Shoot));
    // the rest of the batch was dropped with the tick
    assert_eq!(handler.process_events_for_game(500), None);
    tx.send(ServerEvent::LeftPeak(300)).unwrap();
    assert_eq!(handler.process_events_for_game(500), None);
}

#[test]
fn check_events_drains_everything() {
    let (tx, rx) = mpsc::channel();
    let mut handler = ServerEventHandler::new(rx);
    tx.send(ServerEvent::LeftPeak(1)).unwrap();
    tx.send(ServerEvent::ConnectionLost).unwrap();
    assert_eq!(handler.check_events(), vec![ServerEvent::LeftPeak(1), ServerEvent::ConnectionLost]);
    assert_eq!(handler.check_events(), vec![]);
    drop(tx);
    assert_eq!(handler.check_events(), vec![]);
}

#[test]
fn many_senders_one_consumer() {
    let (tx, rx) = mpsc::channel();
    let mut handler = ServerEventHandler::new(rx);
    let senders: Vec<mpsc::Sender<ServerEvent>> = (0..50).map(|_| tx.clone()).collect();
    for s in &senders {
        s.send(ServerEvent::ConnectionEstablished).unwrap();
    }
    for s in &senders {
        s.send(ServerEvent::RightPeak(800)).unwrap();
    }
    let batch = handler.check_events();
    assert_eq!(batch.len(), 100);
    let established = batch.iter().filter(|e| **e == ServerEvent::ConnectionEstablished).count();
    assert_eq!(established, 50);
    assert_eq!(resolve_events(&batch, 500), Some(GameAction::MoveRight));
}
