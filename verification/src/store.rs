//! The record that lets a scan survive a restart, and the choice of the
//! offset at which a scan starts.

use crate::bignum::{decimal_value, is_decimal_literal, parse_decimal, to_u64};
use vstd::prelude::*;

verus! {

/// The offset at which a scan starts when nothing else says where.
pub const DEFAULT_START: u64 = 100_000_000_000_000;

/// The persisted scan state: the cursor at the time of the last save.
#[derive(Clone, Copy, Debug, PartialEq, Eq, Structural)]
pub struct SavedState {
    pub digit_start: u64,
}

impl SavedState {
    /// The record for a scan whose cursor stands at `digit_start`.
    pub fn new(digit_start: u64) -> (state: SavedState)
        ensures
            state.digit_start == digit_start,
    {
        SavedState { digit_start }
    }

    /// The saved cursor.
    pub fn digit_start(&self) -> (offset: u64)
        ensures
            offset == self.digit_start,
    {
        self.digit_start
    }
}

/// Why a start argument names no offset.
#[derive(Clone, Copy, Debug, PartialEq, Eq, Structural)]
pub enum StartError {
    /// The argument is no decimal literal.
    NotDecimal,
    /// The argument is a number beyond the largest offset.
    TooLarge,
}

/// The offset that a start argument names.
pub open spec fn start_of(arg: Seq<char>) -> Result<u64, StartError> {
    if !is_decimal_literal(arg) {
        Err(StartError::NotDecimal)
    } else if decimal_value(arg) > u64::MAX {
        Err(StartError::TooLarge)
    } else {
        Ok(decimal_value(arg) as u64)
    }
}

/// Reads a start argument: a non-negative decimal number that fits an
/// offset.
pub fn parse_start(arg: &str) -> (r: Result<u64, StartError>)
    ensures
        r == start_of(arg@),
{
    match parse_decimal(arg) {
        Ok(n) => match to_u64(&n) {
            Some(offset) => Ok(offset),
            None => Err(StartError::TooLarge),
        },
        Err(_) => Err(StartError::NotDecimal),
    }
}

/// The offset at which a scan starts: the explicit one if there is one, else
/// the saved one if there is one, else the default.
pub open spec fn first_cursor(
    explicit: Option<u64>,
    saved: Option<SavedState>,
    default_start: u64,
) -> u64 {
    match explicit {
        Some(offset) => offset,
        None => match saved {
            Some(state) => state.digit_start,
            None => default_start,
        },
    }
}

/// Chooses the offset at which a scan starts.
pub fn initial_cursor(
    explicit: Option<u64>,
    saved: Option<SavedState>,
    default_start: u64,
) -> (cursor: u64)
    ensures
        cursor == first_cursor(explicit, saved, default_start),
{
    match explicit {
        Some(offset) => offset,
        None => match saved {
            Some(state) => state.digit_start,
            None => default_start,
        },
    }
}

} // verus!
