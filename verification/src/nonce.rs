//! Nonces of transaction headers.
//!
//! A nonce is the time that passed between two readings of the clock, taken
//! one right after the other: its whole seconds and the nanoseconds beyond
//! them, both in decimal and written without a gap.

use crate::hex::{hex_digit, hex_digit_str};
use std::time::{Duration, Instant};
use vstd::prelude::*;
use vstd::string::*;

verus! {

/// A reading of the monotonic clock.
#[verifier::external_type_specification]
#[verifier::external_body]
pub struct ExInstant(Instant);

/// `Instant::now` reads the clock; nothing is known of the reading.
pub assume_specification[ Instant::now ]() -> Instant;

/// `Instant::elapsed` gives the time since the reading; nothing is known of
/// it.
pub assume_specification[ Instant::elapsed ](instant: &Instant) -> Duration;

/// `Duration::as_secs` gives the whole seconds of a duration; nothing is
/// known of them.
pub assume_specification[ Duration::as_secs ](duration: &Duration) -> u64;

/// `Duration::subsec_nanos` gives the part of a duration beyond its whole
/// seconds, in nanoseconds, which is less than a second.
pub assume_specification[ Duration::subsec_nanos ](duration: &Duration) -> (nanos: u32)
    ensures
        nanos < 1_000_000_000,
;

/// The decimal numeral of `n`: no leading zero, and `0` for zero.
pub open spec fn decimal(n: nat) -> Seq<char>
    decreases n,
{
    if n < 10 {
        seq![hex_digit(n as int)]
    } else {
        decimal(n / 10).push(hex_digit((n % 10) as int))
    }
}

/// The nonce for an elapsed time of `secs` seconds and `nanos` nanoseconds.
pub open spec fn nonce_text(secs: nat, nanos: nat) -> Seq<char> {
    decimal(secs) + decimal(nanos)
}

/// Whether `text` is the nonce of some elapsed time.
pub open spec fn is_nonce(text: Seq<char>) -> bool {
    exists|secs: nat, nanos: nat| nanos < 1_000_000_000 && text == #[trigger] nonce_text(secs, nanos)
}

/// Writes the decimal numeral of `n` at the end of `text`.
fn append_decimal(text: &mut String, n: u64)
    ensures
        final(text)@ == old(text)@ + decimal(n as nat),
    decreases n,
{
    if n >= 10 {
        append_decimal(text, n / 10);
    }
    let last: u8 = (n % 10) as u8;
    text.append(hex_digit_str(last));
    assert(text@ =~= old(text)@ + decimal(n as nat));
}

/// The nonce for an elapsed time of `secs` seconds and `nanos` nanoseconds.
pub fn format_nonce(secs: u64, nanos: u32) -> (nonce: String)
    ensures
        nonce@ == nonce_text(secs as nat, nanos as nat),
{
    let mut nonce = String::new();
    append_decimal(&mut nonce, secs);
    append_decimal(&mut nonce, nanos as u64);
    nonce
}

/// Creates a nonce appropriate for a transaction header, from the clock.
pub fn create_nonce() -> (nonce: String)
    ensures
        is_nonce(nonce@),
{
    let elapsed = Instant::now().elapsed();
    let secs = elapsed.as_secs();
    let nanos = elapsed.subsec_nanos();
    let nonce = format_nonce(secs, nanos);
    assert(nonce@ == nonce_text(secs as nat, nanos as nat));
    nonce
}

} // verus!
