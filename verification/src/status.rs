//! The admission phase of the sale as a function of time.

use vstd::prelude::*;

verus! {

/// The stage the sale is in.
#[derive(Clone, Copy, Debug, PartialEq, Eq, Structural)]
pub enum Status {
    /// Anyone may mint, within the public allowance if one is configured.
    Open,
    /// Nothing is left to mint. Time alone never yields this stage: whoever
    /// knows the remaining supply puts it in place of the timed stage.
    SoldOut,
    /// Nobody but the owner may mint.
    Closed,
    /// Only accounts that hold an allowance may mint.
    Presale,
}

/// Nanoseconds in a millisecond.
pub const NANOS_PER_MILLI: u64 = 1_000_000;

/// The stage at time `now` of a sale whose presale and public sale start
/// strictly after the given times. The public start takes precedence; a start
/// that is not set never arrives.
pub open spec fn spec_phase(now: u64, presale_start: Option<u64>, public_start: Option<u64>) -> Status {
    if public_start is Some && public_start->0 < now {
        Status::Open
    } else if presale_start is Some && presale_start->0 < now {
        Status::Presale
    } else {
        Status::Closed
    }
}

/// Computes the stage of the sale at time `now`.
pub fn phase(now: u64, presale_start: Option<u64>, public_start: Option<u64>) -> (status: Status)
    ensures
        status == spec_phase(now, presale_start, public_start),
{
    match public_start {
        Some(public) if public < now => {
            return Status::Open;
        },
        _ => {},
    }
    match presale_start {
        Some(pre) if pre < now => Status::Presale,
        _ => Status::Closed,
    }
}

/// Milliseconds since the epoch for a block time given in nanoseconds.
pub fn current_time_ms(block_timestamp: u64) -> (ms: u64)
    ensures
        ms == block_timestamp / NANOS_PER_MILLI,
{
    block_timestamp / NANOS_PER_MILLI
}

/// The stage is fully determined by the three times, it is never `SoldOut`,
/// and each of the three timed stages is returned on exactly the inputs that
/// its rule names, so no input yields two of them.
pub proof fn lemma_phase_is_exactly_one_timed_stage(
    now: u64,
    presale_start: Option<u64>,
    public_start: Option<u64>,
)
    ensures
        spec_phase(now, presale_start, public_start) != Status::SoldOut,
        spec_phase(now, presale_start, public_start) == Status::Open <==> (public_start is Some
            && public_start->0 < now),
        spec_phase(now, presale_start, public_start) == Status::Presale <==> (!(public_start is Some
            && public_start->0 < now) && presale_start is Some && presale_start->0 < now),
        spec_phase(now, presale_start, public_start) == Status::Closed <==> (!(public_start is Some
            && public_start->0 < now) && !(presale_start is Some && presale_start->0 < now)),
{
}

/// The stage only moves forward with time: once open, the sale stays open,
/// and a presale is followed by a presale or by the public sale.
pub proof fn lemma_phase_advances_with_time(
    earlier: u64,
    later: u64,
    presale_start: Option<u64>,
    public_start: Option<u64>,
)
    requires
        earlier <= later,
    ensures
        spec_phase(earlier, presale_start, public_start) == Status::Open ==> spec_phase(
            later,
            presale_start,
            public_start,
        ) == Status::Open,
        spec_phase(earlier, presale_start, public_start) == Status::Presale ==> spec_phase(
            later,
            presale_start,
            public_start,
        ) != Status::Closed,
{
}

} // verus!
