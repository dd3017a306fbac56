use galaga::{Connection, Incoming, Phase, Reply, ServerEvent};

fn text_of(r: &Option<Reply>) -> Option<String> {
    match r {
        Some(Reply::Text(t)) => Some(t.clone()),
        _ => None,
    }
}

fn opened() -> Connection {
    let (mut c, ev) = Connection::accept();
    assert_eq!(ev, ServerEvent::ConnectionEstablished);
    assert_eq!(c.phase, Phase::Handshake);
    let s = c.step(Incoming::Upgraded);
    assert_eq!(text_of(&s.reply), Some("Connected to game server".to_string()));
    assert_eq!(s.event, None);
    assert!(s.keep_open);
    c
}

#[test]
fn good_frame_is_queued_and_acknowledged() {
    let mut c = opened();
    let s = c.step(Incoming::Text("{\"action\":\"shoot\",\"value\":800}".to_string()));
    assert_eq!(s.event, Some(ServerEvent::ShootPeak(800)));
    assert_eq!(text_of(&s.reply), Some("OK".to_string()));
    assert!(s.keep_open);
    assert_eq!(c.phase, Phase::Open);
}

#[test]
fn malformed_frames_get_parse_error_and_keep_connection() {
    let mut c = opened();
    for frame in ["{\"peak\":\"abc\"}", "nonsense", "{\"action\":\"left\",\"value\":\"x\"}", "{\"action\":\"left\"}"] {
        let s = c.step(Incoming::Text(frame.to_string()));
        assert_eq!(s.event, None);
        assert_eq!(text_of(&s.reply), Some("Parse error".to_string()));
        assert!(s.keep_open);
    }
    let s = c.step(Incoming::Text("{\"action\":\"left\",\"value\":1}".to_string()));
    assert_eq!(s.event, Some(ServerEvent::LeftPeak(1)));
}

#[test]
fn unknown_action_keeps_connection() {
    let mut c = opened();
    let s = c.step(Incoming::Text("{\"action\":\"jump\",\"value\":900}".to_string()));
    assert_eq!(s.event, None);
    assert_eq!(text_of(&s.reply), Some("Unknown action".to_string()));
    assert!(s.keep_open);
    assert_eq!(c.phase, Phase::Open);
}

#[test]
fn ping_gets_pong_with_payload() {
    let mut c = opened();
    let s = c.step(Incoming::Ping(vec![1, 2, 3]));
    match s.reply {
        Some(Reply::Pong(p)) => assert_eq!(p, vec![1, 2, 3]),
        _ => panic!("expected a pong"),
    }
    assert_eq!(s.event, None);
    let s = c.step(Incoming::Other);
    assert!(s.reply.is_none() && s.event.is_none() && s.keep_open);
}

#[test]
fn connection_lost_exactly_once() {
    for end in [Incoming::Close, Incoming::Ended, Incoming::ReadError, Incoming::WriteError] {
        let mut c = opened();
        let s = c.step(end);
        assert_eq!(s.event, Some(ServerEvent::ConnectionLost));
        assert!(!s.keep_open);
        assert_eq!(c.phase, Phase::Closed);
        let s = c.step(Incoming::WriteError);
        assert_eq!(s.event, None);
        let s = c.step(Incoming::Text("{\"action\":\"right\",\"value\":900}".to_string()));
        assert_eq!(s.event, None);
        assert!(s.reply.is_none());
        assert!(!s.keep_open);
    }
}

#[test]
fn failed_handshake_reports_loss() {
    let (mut c, _) = Connection::accept();
    let s = c.step(Incoming::ReadError);
    assert_eq!(s.event, Some(ServerEvent::ConnectionLost));
    assert!(s.reply.is_none());
    assert!(!s.keep_open);
}

#[test]
fn frames_before_upgrade_are_ignored() {
    let (mut c, _) = Connection::accept();
    let s = c.step(Incoming::Text("{\"action\":\"right\",\"value\":900}".to_string()));
    assert!(s.event.is_none() && s.reply.is_none() && s.keep_open);
    assert_eq!(c.phase, Phase::Handshake);
}

#[test]
fn one_established_per_accept() {
    let mut established = 0;
    for _ in 0..50 {
        let (mut c, ev) = Connection::accept();
        if ev == ServerEvent::ConnectionEstablished {
            established += 1;
        }
        c.step(Incoming::Upgraded);
        let s = c.step(Incoming::Text("{\"action\":\"right\",\"value\":800}".to_string()));
        assert_eq!(s.event, Some(ServerEvent::RightPeak(800)));
    }
    assert_eq!(established, 50);
}
