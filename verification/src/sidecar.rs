//! The speech engine runs as a local HTTP server: its address, the port
//! handshake, and the health check that respawns it after repeated failures.
use vstd::prelude::*;
use vstd::string::*;
use crate::text::{push_decimal, decimal_seq, decimal_value, law_decimal_reads_back};
use crate::json::{json_u64, json_u64_field};

verus! {

/// How often the engine's health is checked, in seconds.
pub const HEALTH_CHECK_INTERVAL_SECS: u64 = 5;

/// Consecutive failed health checks after which the engine is respawned.
pub const HEALTH_FAILURE_LIMIT: u8 = 3;

/// How long to wait for the engine's port handshake, in seconds.
pub const HANDSHAKE_TIMEOUT_SECS: u64 = 15;

/// The URL of an endpoint of the engine listening on `port` of the loopback
/// interface.
pub fn sidecar_url(port: u16, path: &str) -> (r: String)
    ensures
        r@ == "http://127.0.0.1:"@ + decimal_seq(port as nat) + path@,
{
    let mut url = String::from_str("http://127.0.0.1:");
    push_decimal(&mut url, port as u64);
    url.append(path);
    url
}

/// The engine's URL names the engine's port: between the loopback prefix and
/// the path stand only decimal digits, and they read back as the port.
pub proof fn law_url_names_the_port(port: u16, path: Seq<char>)
    ensures
        ({
            let u = "http://127.0.0.1:"@ + decimal_seq(port as nat) + path;
            let digits = u.subrange("http://127.0.0.1:"@.len() as int, u.len() - path.len());
            &&& decimal_value(digits) == port
            &&& forall|i: int| 0 <= i < digits.len() ==> 48 <= #[trigger] digits[i] as u32 <= 57
        }),
{
    law_decimal_reads_back(port as nat);
    let u = "http://127.0.0.1:"@ + decimal_seq(port as nat) + path;
    assert(u.subrange("http://127.0.0.1:"@.len() as int, u.len() - path.len()) =~= decimal_seq(port as nat));
}

/// The engine's port, or an error when the handshake has not delivered one.
pub fn get_sidecar_port(port: Option<u16>) -> (r: Result<u16, String>)
    ensures
        port matches Some(p) ==> r == Ok::<u16, String>(p),
        port is None ==> (r matches Err(m) && m@ == "sidecar port not initialized"@),
{
    match port {
        Some(p) => Ok(p),
        None => Err(String::from_str("sidecar port not initialized")),
    }
}

/// The port announced by the handshake line `{"port": N}`: only a value that
/// fits a TCP port is accepted.
pub fn handshake_port(announced: Option<u64>) -> (r: Option<u16>)
    ensures
        r == (match announced { Some(n) => if n <= u16::MAX { Some(n as u16) } else { None }, None => None }),
{
    match announced {
        Some(n) => {
            if n <= 65535 {
                Some(n as u16)
            } else {
                None
            }
        },
        None => None,
    }
}

/// The port announced by a handshake line of the form `{"port": N}`: the
/// line's `port` field, accepted only when it fits a TCP port.
pub fn handshake_port_from_line(line: &str) -> (r: Option<u16>)
    ensures
        r == (match json_u64_field(line@, "port"@) {
            Some(n) => if n <= u16::MAX { Some(n as u16) } else { None },
            None => None,
        }),
{
    handshake_port(json_u64(line, "port"))
}

/// The health checker's decision after one check.
#[derive(Debug, Clone, Copy, PartialEq, Eq, Structural)]
pub struct HealthStep {
    /// Consecutive failures to carry into the next check.
    pub failures: u8,
    /// `Some(n)`: respawn the engine, reporting `n` consecutive failures.
    pub respawn: Option<u8>,
}

/// A healthy check resets the count; a failed one increments it (saturating),
/// and reaching the limit respawns the engine and resets the count.
pub open spec fn health_step_spec(failures: u8, healthy: bool) -> HealthStep {
    if healthy {
        HealthStep { failures: 0, respawn: None }
    } else {
        let n: u8 = if failures == u8::MAX { u8::MAX } else { (failures + 1) as u8 };
        if n >= HEALTH_FAILURE_LIMIT {
            HealthStep { failures: 0, respawn: Some(n) }
        } else {
            HealthStep { failures: n, respawn: None }
        }
    }
}

/// Decide what follows one health check.
pub fn health_check_step(failures: u8, healthy: bool) -> (r: HealthStep)
    ensures
        r == health_step_spec(failures, healthy),
{
    if healthy {
        HealthStep { failures: 0, respawn: None }
    } else {
        let n: u8 = failures.saturating_add(1);
        if n >= HEALTH_FAILURE_LIMIT {
            HealthStep { failures: 0, respawn: Some(n) }
        } else {
            HealthStep { failures: n, respawn: None }
        }
    }
}

/// The consecutive-failure count stays below the limit, and the engine is
/// respawned exactly on the third failure in a row, counting from a healthy
/// (or fresh) start.
pub proof fn law_respawn_after_three_failures(failures: u8, healthy: bool)
    requires
        failures < HEALTH_FAILURE_LIMIT,
    ensures
        health_step_spec(failures, healthy).failures < HEALTH_FAILURE_LIMIT,
        health_step_spec(failures, healthy).respawn is Some <==> (!healthy && failures == 2),
        health_step_spec(0, false) == (HealthStep { failures: 1, respawn: None }),
        health_step_spec(1, false) == (HealthStep { failures: 2, respawn: None }),
        health_step_spec(2, false) == (HealthStep { failures: 0, respawn: Some(3) }),
{
}

/// The consecutive-failure count after the first `n` checks of a run that
/// starts fresh, with the results of the checks in `results`.
pub open spec fn health_count(results: Seq<bool>, n: nat) -> u8
    decreases n,
{
    if n == 0 {
        0
    } else {
        health_step_spec(health_count(results, (n - 1) as nat), results[n - 1]).failures
    }
}

/// How many checks in a row failed, counting back from just before `n`.
pub open spec fn failure_run(results: Seq<bool>, n: nat) -> nat
    decreases n,
{
    if n == 0 {
        0
    } else if results[n - 1] {
        0
    } else {
        failure_run(results, (n - 1) as nat) + 1
    }
}

proof fn lemma_health_count(results: Seq<bool>, n: nat)
    requires
        n <= results.len(),
    ensures
        health_count(results, n) == failure_run(results, n) % 3,
    decreases n,
{
    if n > 0 {
        lemma_health_count(results, (n - 1) as nat);
    }
}

/// Over a whole run of checks starting fresh: the carried count is the number
/// of failures in a row so far, modulo three, and check `i` respawns the
/// engine (reporting three failures) exactly when it fails and completes a
/// multiple of three failures in a row, that is, on every third failure in a
/// row and at no other time.
pub proof fn law_respawn_on_every_third_failure_in_a_row(results: Seq<bool>, i: nat)
    requires
        i < results.len(),
    ensures
        health_count(results, i) == failure_run(results, i) % 3,
        (health_step_spec(health_count(results, i), results[i as int]).respawn is Some)
            <==> (!results[i as int] && failure_run(results, i + 1) % 3 == 0),
        health_step_spec(health_count(results, i), results[i as int]).respawn is Some
            ==> health_step_spec(health_count(results, i), results[i as int]).respawn == Some(3u8),
{
    lemma_health_count(results, i);
    lemma_health_count(results, i + 1);
    assert(failure_run(results, i + 1) == if results[i as int] { 0 } else { failure_run(results, i) + 1 });
}

} // verus!
