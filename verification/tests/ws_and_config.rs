use mesagisto_center::config::{Config, Launch, ServerConfig, TlsConfig};
use mesagisto_center::ws::{fault_closes, read_step, write_step, ReadStep, WriteStep, WsFault, WsFrame};

#[test]
fn ping_is_answered_with_same_payload() {
    match read_step(Ok(WsFrame::Ping(vec![1, 2, 3]))) {
        ReadStep::ReplyPong(p) => assert_eq!(p, vec![1, 2, 3]),
        _ => panic!("expected a pong"),
    }
}

#[test]
fn binary_is_delivered() {
    match read_step(Ok(WsFrame::Binary(vec![9, 8]))) {
        ReadStep::Deliver(d) => assert_eq!(d, vec![9, 8]),
        _ => panic!("expected a delivery"),
    }
}

#[test]
fn pong_and_other_frames() {
    assert!(matches!(read_step(Ok(WsFrame::Pong)), ReadStep::SawPong));
    assert!(matches!(read_step(Ok(WsFrame::Other)), ReadStep::Unexpected));
}

#[test]
fn closing_faults_stop_the_reader() {
    for f in [WsFault::ConnectionClosed, WsFault::AlreadyClosed, WsFault::ResetWithoutClosingHandshake, WsFault::Io] {
        assert!(fault_closes(f));
        assert!(matches!(read_step(Err(f)), ReadStep::Stop));
        assert_eq!(write_step(Err(f)), WriteStep::Stop);
    }
}

#[test]
fn other_faults_are_reported() {
    assert!(!fault_closes(WsFault::Other));
    assert!(matches!(read_step(Err(WsFault::Other)), ReadStep::ReportError));
    assert_eq!(write_step(Err(WsFault::Other)), WriteStep::ReportError);
    assert_eq!(write_step(Ok(())), WriteStep::Continue);
}

#[test]
fn default_config() {
    let c = Config::default();
    assert!(!c.enable);
    assert_eq!(c.server.ws, "0.0.0.0:6996");
    assert_eq!(c.server.quic, "0.0.0.0:6996");
    assert!(c.tls.enable_for_ws);
    assert_eq!(c.tls.cert, "/path/to/cert");
    assert_eq!(c.tls.key, "/path/to/key");
    assert_eq!(c.launch(), Launch::Disabled);
}

#[test]
fn enabled_config_launches() {
    let mut c = Config { enable: true, server: ServerConfig::default(), tls: TlsConfig::default() };
    assert_eq!(c.launch(), Launch::Serve { ws_over_tls: true });
    c.tls.enable_for_ws = false;
    assert_eq!(c.launch(), Launch::Serve { ws_over_tls: false });
}
