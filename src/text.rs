//! Decimal rendering and the texts that the supervisor reports.

use vstd::prelude::*;

verus! {

/// The character of a decimal digit.
pub open spec fn digit_char(d: nat) -> char {
    if d == 0 { '0' }
    else if d == 1 { '1' }
    else if d == 2 { '2' }
    else if d == 3 { '3' }
    else if d == 4 { '4' }
    else if d == 5 { '5' }
    else if d == 6 { '6' }
    else if d == 7 { '7' }
    else if d == 8 { '8' }
    else { '9' }
}

/// The decimal representation of `n`, without leading zeros.
pub open spec fn decimal(n: nat) -> Seq<char>
    decreases n,
{
    if n < 10 {
        seq![digit_char(n)]
    } else {
        decimal(n / 10) + seq![digit_char(n % 10)]
    }
}

fn digit_str(d: u16) -> (r: &'static str)
    requires
        d < 10,
    ensures
        r@ == seq![digit_char(d as nat)],
{
    if d == 0 {
        proof { reveal_strlit("0"); }
        "0"
    } else if d == 1 {
        proof { reveal_strlit("1"); }
        "1"
    } else if d == 2 {
        proof { reveal_strlit("2"); }
        "2"
    } else if d == 3 {
        proof { reveal_strlit("3"); }
        "3"
    } else if d == 4 {
        proof { reveal_strlit("4"); }
        "4"
    } else if d == 5 {
        proof { reveal_strlit("5"); }
        "5"
    } else if d == 6 {
        proof { reveal_strlit("6"); }
        "6"
    } else if d == 7 {
        proof { reveal_strlit("7"); }
        "7"
    } else if d == 8 {
        proof { reveal_strlit("8"); }
        "8"
    } else {
        proof { reveal_strlit("9"); }
        "9"
    }
}

/// Renders a port number in decimal.
pub fn port_decimal(n: u16) -> (r: String)
    ensures
        r@ == decimal(n as nat),
    decreases n,
{
    if n < 10 {
        String::from_str(digit_str(n))
    } else {
        let mut s = port_decimal(n / 10);
        s.append(digit_str(n % 10));
        s
    }
}

/// The liveness endpoint of a worker listening on `port`.
pub open spec fn health_url_of(port: u16) -> Seq<char> {
    "http://127.0.0.1:"@ + decimal(port as nat) + "/health"@
}

/// The URL probed to check the worker on `port`.
pub fn health_url(port: u16) -> (r: String)
    ensures
        r@ == health_url_of(port),
{
    let mut s = String::from_str("http://127.0.0.1:");
    let d = port_decimal(port);
    s.append(d.as_str());
    s.append("/health");
    s
}

/// The error when a manually pinned worker does not answer.
pub open spec fn manual_unreachable_text(port: u16) -> Seq<char> {
    "Manual sidecar port "@ + decimal(port as nat)
        + " provided via LIGHTBOT_SIDECAR_PORT but server is not responding at "@
        + health_url_of(port)
}

/// Renders the error for a manually pinned worker that does not answer.
pub fn manual_unreachable_message(port: u16) -> (r: String)
    ensures
        r@ == manual_unreachable_text(port),
{
    let mut s = String::from_str("Manual sidecar port ");
    let d = port_decimal(port);
    s.append(d.as_str());
    s.append(" provided via LIGHTBOT_SIDECAR_PORT but server is not responding at ");
    let u = health_url(port);
    s.append(u.as_str());
    s
}

/// The error when no worker binary exists; it names the expected development path.
pub open spec fn not_found_text(expected: Seq<char>) -> Seq<char> {
    "Python sidecar binary not found. Please run ./scripts/build-sidecar.sh. Expected: "@
        + expected
}

/// Renders the error for a missing worker binary.
pub fn not_found_message(expected: &str) -> (r: String)
    ensures
        r@ == not_found_text(expected@),
{
    let mut s = String::from_str(
        "Python sidecar binary not found. Please run ./scripts/build-sidecar.sh. Expected: ",
    );
    s.append(expected);
    s
}

/// The error when the operating system refuses to start the worker.
pub open spec fn spawn_failure_text(os: Seq<char>) -> Seq<char> {
    "Failed to spawn sidecar: "@ + os
}

/// Renders the error for a refused spawn.
pub fn spawn_failure_message(os: &str) -> (r: String)
    ensures
        r@ == spawn_failure_text(os@),
{
    let mut s = String::from_str("Failed to spawn sidecar: ");
    s.append(os);
    s
}

} // verus!
