use tls_relay::pump::Pump;
use tls_relay::relay::RelayCause;
use tls_relay::session::{finish_relay, Session, SessionOutcome, SessionState};
use tls_relay::Side;

#[test]
fn tls_session_full_lifecycle() {
    let mut s = Session::new(true);
    assert_eq!(s.state, SessionState::Accepted);
    assert_eq!(s.begin(), SessionState::TlsHandshaking);
    s.on_handshake_ok();
    assert_eq!(s.state, SessionState::Connecting);
    s.on_connect_ok();
    assert_eq!(s.state, SessionState::Relaying);

    let mut c2u = Pump::new(Side::Client, 1_000, 0);
    let u2c = Pump::new(Side::Upstream, 1_000, 0);
    c2u.on_eof();
    let outcome = finish_relay(&mut s, &c2u, &u2c, Side::Client);
    assert_eq!(s.state, SessionState::Closed);
    assert_eq!(outcome.cause, RelayCause::CleanEof(Side::Client));
    assert_eq!(s.result(), Some(SessionOutcome::Relayed(outcome)));
}

#[test]
fn plain_session_skips_handshake() {
    let mut s = Session::new(false);
    assert_eq!(s.begin(), SessionState::Connecting);
}

#[test]
fn handshake_failure_closes_without_connect() {
    // A client that speaks something other than TLS fails the handshake:
    // the session closes at once and no upstream connect is ever attempted.
    let mut s = Session::new(true);
    s.begin();
    s.on_handshake_failed();
    assert_eq!(s.state, SessionState::Closed);
    assert_eq!(s.result(), Some(SessionOutcome::HandshakeFailed));
}

#[test]
fn connect_failure_closes_without_relaying() {
    // Upstream port closed: the session goes straight from Connecting to
    // Closed with a connect error, never entering Relaying.
    let mut s = Session::new(true);
    s.begin();
    s.on_handshake_ok();
    s.on_connect_failed();
    assert_eq!(s.state, SessionState::Closed);
    assert_eq!(s.result(), Some(SessionOutcome::ConnectFailed));
}

#[test]
fn connect_timeout_closes_without_relaying() {
    let mut s = Session::new(false);
    s.begin();
    s.on_connect_timeout();
    assert_eq!(s.state, SessionState::Closed);
    assert_eq!(s.result(), Some(SessionOutcome::ConnectTimedOut));
}

#[test]
fn idle_timeout_session_reports_silent_side() {
    let mut s = Session::new(false);
    s.begin();
    s.on_connect_ok();
    let c2u_timeout = 700u64;
    let mut c2u = Pump::new(Side::Client, c2u_timeout, 0);
    let u2c = Pump::new(Side::Upstream, 900, 0);
    // Both sides silent: the client direction's deadline elapses first.
    assert!(c2u.deadline < u2c.deadline);
    c2u.on_timeout(c2u_timeout);
    let outcome = finish_relay(&mut s, &c2u, &u2c, Side::Client);
    assert_eq!(outcome.cause, RelayCause::IdleTimeout(Side::Client));
    assert!(!outcome.is_clean());
    assert_eq!(s.result(), Some(SessionOutcome::Relayed(outcome)));
}

#[test]
fn outcome_absent_until_closed() {
    let mut s = Session::new(true);
    assert_eq!(s.result(), None);
    s.begin();
    assert_eq!(s.result(), None);
    s.on_handshake_ok();
    assert_eq!(s.result(), None);
    s.on_connect_ok();
    assert_eq!(s.result(), None);
}
