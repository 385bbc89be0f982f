use tls_relay::pump::{EndCause, Pump, PumpPhase};
use tls_relay::relay::{relay_outcome, RelayCause, RelayOutcome};
use tls_relay::Side;

#[test]
fn ping_echo_clean_close() {
    // Client connects, sends b"ping"; the upstream echoes b"ping" back
    // immediately; the client closes. The client-side EOF ends the relay
    // first; the upstream-to-client direction had already finished its
    // transfer and reports its bytes, not a manufactured error.
    let mut c2u = Pump::new(Side::Client, 1_000, 0);
    let mut u2c = Pump::new(Side::Upstream, 1_000, 0);

    c2u.on_data(b"ping".to_vec(), 10);
    assert_eq!(c2u.pending_chunk().as_slice(), b"ping");
    c2u.on_write_ok();
    assert_eq!(c2u.bytes_forwarded, 4);

    u2c.on_data(b"ping".to_vec(), 12);
    u2c.on_write_ok();
    assert_eq!(u2c.bytes_forwarded, 4);

    u2c.on_eof();
    c2u.on_eof();

    let outcome = relay_outcome(&c2u, &u2c, Side::Client);
    assert_eq!(
        outcome,
        RelayOutcome {
            client_to_upstream: 4,
            upstream_to_client: 4,
            cause: RelayCause::CleanEof(Side::Client),
        }
    );
    assert!(outcome.is_clean());
}

#[test]
fn silent_dual_close_reports_zero_bytes_clean() {
    // Client sends nothing and closes; upstream closes without sending.
    let mut c2u = Pump::new(Side::Client, 1_000, 0);
    let mut u2c = Pump::new(Side::Upstream, 1_000, 0);
    c2u.on_eof();
    u2c.on_eof();

    let outcome = relay_outcome(&c2u, &u2c, Side::Client);
    assert_eq!(outcome.client_to_upstream, 0);
    assert_eq!(outcome.upstream_to_client, 0);
    assert_eq!(outcome.cause, RelayCause::CleanEof(Side::Client));

    let outcome_other_race = relay_outcome(&c2u, &u2c, Side::Upstream);
    assert_eq!(outcome_other_race.cause, RelayCause::CleanEof(Side::Upstream));
    assert!(outcome_other_race.is_clean());
}

#[test]
fn forwards_chunks_in_order() {
    let mut p = Pump::new(Side::Client, 1_000, 0);
    let chunks: [&[u8]; 3] = [b"hello ", b"relay", b"!"];
    let mut total: u64 = 0;
    for c in chunks {
        p.on_data(c.to_vec(), 5);
        assert_eq!(p.pending_chunk().as_slice(), c);
        p.on_write_ok();
        total += c.len() as u64;
        assert_eq!(p.bytes_forwarded, total);
    }
    p.on_eof();
    assert_eq!(p.bytes_forwarded, 12);
    assert_eq!(p.end_cause(), Some(EndCause::CleanEof));
}

#[test]
fn idle_timeout_fires_only_after_full_timeout() {
    let mut p = Pump::new(Side::Upstream, 500, 100);
    // Deadline is creation time plus the idle timeout.
    assert_eq!(p.deadline, 600);
    assert_eq!(p.remaining_ms(100), 500);
    assert_eq!(p.remaining_ms(350), 250);
    assert_eq!(p.remaining_ms(600), 0);
    assert_eq!(p.remaining_ms(900), 0);
    p.on_timeout(600);
    assert_eq!(p.phase, PumpPhase::Done(EndCause::IdleTimeout));
    assert_eq!(p.bytes_forwarded, 0);
}

#[test]
fn data_resets_own_deadline() {
    let mut p = Pump::new(Side::Client, 1_000, 0);
    assert_eq!(p.deadline, 1_000);
    p.on_data(b"x".to_vec(), 800);
    p.on_write_ok();
    // Receipt of data at 800 pushed the deadline to 1_800.
    assert_eq!(p.deadline, 1_800);
    assert_eq!(p.remaining_ms(1_000), 800);
}

#[test]
fn write_failure_attributed_to_destination() {
    // Write failures on the client-to-upstream pump belong to the upstream.
    let mut c2u = Pump::new(Side::Client, 1_000, 0);
    let mut u2c = Pump::new(Side::Upstream, 1_000, 0);
    c2u.on_data(b"abc".to_vec(), 1);
    c2u.on_write_err();
    assert_eq!(c2u.end_cause(), Some(EndCause::WriteError));
    assert_eq!(c2u.bytes_forwarded, 0);
    u2c.on_eof();

    let outcome = relay_outcome(&c2u, &u2c, Side::Client);
    assert_eq!(outcome.cause, RelayCause::WriteError(Side::Upstream));
    assert_eq!(outcome.client_to_upstream, 0);
}

#[test]
fn read_failure_attributed_to_source() {
    let mut c2u = Pump::new(Side::Client, 1_000, 0);
    let mut u2c = Pump::new(Side::Upstream, 1_000, 0);
    c2u.on_eof();
    u2c.on_read_err();
    let outcome = relay_outcome(&c2u, &u2c, Side::Upstream);
    assert_eq!(outcome.cause, RelayCause::ReadError(Side::Upstream));
}

#[test]
fn timeout_attributed_to_silent_side() {
    // Both sides silent; the upstream-to-client deadline elapses first
    // (its pump was created earlier), and the timeout names the upstream.
    let c2u = Pump::new(Side::Client, 1_000, 50);
    let mut u2c = Pump::new(Side::Upstream, 1_000, 0);
    assert!(u2c.deadline < c2u.deadline);
    u2c.on_timeout(1_000);
    let outcome = relay_outcome(&c2u, &u2c, Side::Upstream);
    assert_eq!(outcome.cause, RelayCause::IdleTimeout(Side::Upstream));
    assert_eq!(outcome.client_to_upstream, 0);
    assert_eq!(outcome.upstream_to_client, 0);
    // The never-fired client direction is untouched.
    assert_eq!(c2u.end_cause(), None);
}

#[test]
fn one_direction_does_not_reset_the_other() {
    let mut c2u = Pump::new(Side::Client, 1_000, 0);
    let mut u2c = Pump::new(Side::Upstream, 1_000, 0);
    // A burst of client traffic moves only the client direction's deadline.
    c2u.on_data(b"burst".to_vec(), 900);
    c2u.on_write_ok();
    assert_eq!(c2u.deadline, 1_900);
    assert_eq!(u2c.deadline, 1_000);
    u2c.on_timeout(1_000);
    assert_eq!(u2c.end_cause(), Some(EndCause::IdleTimeout));
}

#[test]
fn side_other_swaps() {
    assert_eq!(Side::Client.other(), Side::Upstream);
    assert_eq!(Side::Upstream.other(), Side::Client);
}
