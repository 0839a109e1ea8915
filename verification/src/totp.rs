//! Time-based one-time codes: TOTP (RFC 6238), which is HOTP on a counter
//! taken from the time.

use crate::error::EngineError;
use crate::hotp::{
    counter_block, hotp, hotp_code, lemma_counter_block_spells_counter, usable_key,
};
use vstd::prelude::*;

verus! {

/// Length in seconds of one time step.
pub const STEP_SECONDS: u64 = 30;

/// How the time is shifted before it is cut into steps.
#[derive(Clone, Copy, Debug, PartialEq, Eq, Structural)]
pub struct TotpParams {
    /// Seconds added to the time.
    pub offset_seconds: u32,
    /// Whole steps added to the time.
    pub offset_steps: u32,
}

/// The counter of the instant `now`: the number of whole steps in the shifted
/// time.
pub open spec fn totp_counter(now: u64, params: TotpParams) -> nat {
    let shifted: int = now + params.offset_seconds + params.offset_steps * STEP_SECONDS;
    (shifted / STEP_SECONDS as int) as nat
}

/// Computes the counter of the instant `now`.
pub fn counter_at(now: u64, params: TotpParams) -> (counter: u64)
    ensures
        counter == totp_counter(now, params),
{
    let step: u128 = STEP_SECONDS as u128;
    assert(step == 30);
    let shifted: u128 = now as u128 + params.offset_seconds as u128 + params.offset_steps as u128
        * step;
    (shifted / step) as u64
}

/// The TOTP code of the instant `now` under `key`: the HOTP code of its
/// counter.
pub open spec fn totp_code(key: Seq<u8>, now: u64, params: TotpParams) -> Seq<char> {
    hotp_code(key, totp_counter(now, params) as u64)
}

/// Derives the TOTP code of the instant `now` under `key`.
///
/// Fails with `InvalidSecret` exactly when the key is not usable.
pub fn totp(key: &[u8], now: u64, params: TotpParams) -> (result: Result<String, EngineError>)
    ensures
        match result {
            Ok(code) => usable_key(key@) && code@ == totp_code(key@, now, params),
            Err(error) => !usable_key(key@) && error == EngineError::InvalidSecret,
        },
{
    hotp(key, counter_at(now, params))
}

/// The index of the time step that holds the instant `now`, counted from the
/// Unix epoch moved by the offset in seconds.
pub open spec fn step_index(now: u64, params: TotpParams) -> int {
    (now + params.offset_seconds) / STEP_SECONDS as int
}

/// Whether two instants lie in one time step.
pub open spec fn same_window(one: u64, other: u64, params: TotpParams) -> bool {
    step_index(one, params) == step_index(other, params)
}

/// The offset in steps shifts the counter by as many: the counter is the index
/// of the step that holds the time moved by the offset in seconds, plus the
/// offset in steps. It fits in 64 bits.
pub proof fn lemma_counter_is_shifted_step_index(now: u64, params: TotpParams)
    ensures
        totp_counter(now, params) == step_index(now, params) + params.offset_steps,
        totp_counter(now, params) <= u64::MAX,
{
}

/// The seconds that have passed of the time step that holds the instant `now`.
pub open spec fn seconds_into_step(now: u64, params: TotpParams) -> int {
    (now + params.offset_seconds) % STEP_SECONDS as int
}

/// A time step lasts thirty seconds: of two instants, the later lies in the
/// step of the earlier exactly when it comes before that step's end.
pub proof fn lemma_window_lasts_one_step(earlier: u64, later: u64, params: TotpParams)
    requires
        earlier <= later,
    ensures
        same_window(earlier, later, params) <==> later - earlier < STEP_SECONDS - seconds_into_step(
            earlier,
            params,
        ),
{
}

/// Two instants in one time step have the same counter, and so the same code
/// under every key.
pub proof fn lemma_same_window_same_code(key: Seq<u8>, one: u64, other: u64, params: TotpParams)
    requires
        same_window(one, other, params),
    ensures
        totp_counter(one, params) == totp_counter(other, params),
        totp_code(key, one, params) == totp_code(key, other, params),
{
    lemma_counter_is_shifted_step_index(one, params);
    lemma_counter_is_shifted_step_index(other, params);
}

/// The counter never goes back as time goes on.
pub proof fn lemma_counter_never_decreases(earlier: u64, later: u64, params: TotpParams)
    requires
        earlier <= later,
    ensures
        totp_counter(earlier, params) <= totp_counter(later, params),
{
}

/// From one second to the next the counter grows by exactly one where a step
/// ends, and stays as it is elsewhere.
pub proof fn lemma_counter_steps_by_one(now: u64, params: TotpParams)
    requires
        now < u64::MAX,
    ensures
        same_window(now, (now + 1) as u64, params) <==> seconds_into_step(now, params) + 1
            < STEP_SECONDS,
        same_window(now, (now + 1) as u64, params) ==> totp_counter((now + 1) as u64, params)
            == totp_counter(now, params),
        !same_window(now, (now + 1) as u64, params) ==> totp_counter((now + 1) as u64, params)
            == totp_counter(now, params) + 1,
{
}

/// Across the boundary between two neighbouring time steps the counter grows
/// by exactly one.
pub proof fn lemma_neighbouring_windows_differ_by_one(earlier: u64, later: u64, params: TotpParams)
    requires
        earlier <= later,
        later - earlier <= STEP_SECONDS,
        !same_window(earlier, later, params),
    ensures
        totp_counter(later, params) == totp_counter(earlier, params) + 1,
{
}

/// Across the boundary between two time steps the block that is hashed
/// changes. (Whether the code changes with it rests with the hash.)
pub proof fn lemma_boundary_changes_hashed_block(earlier: u64, later: u64, params: TotpParams)
    requires
        earlier <= later,
        !same_window(earlier, later, params),
    ensures
        totp_counter(earlier, params) < totp_counter(later, params),
        counter_block(totp_counter(earlier, params) as u64) != counter_block(
            totp_counter(later, params) as u64,
        ),
{
    lemma_counter_is_shifted_step_index(earlier, params);
    lemma_counter_is_shifted_step_index(later, params);
    lemma_counter_block_spells_counter(totp_counter(earlier, params) as u64);
    lemma_counter_block_spells_counter(totp_counter(later, params) as u64);
}

} // verus!
