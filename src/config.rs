//! The two durations of a session, read from the text of its two options.
use crate::keys::{control_c, control_c_spec, KeyPress};
use crate::micros::{decimal, lemma_decimal_round_trip, parse_micros, parse_spec, ParseFault};
use vstd::prelude::*;
use vstd::string::StringSliceAdditionalSpecFns;

verus! {

/// How long the wait phase lasts when `--wait` is not given.
pub const DEFAULT_WAIT_MICROS: u64 = 2000000;

/// How long the poll phase may last when `--poll` is not given.
pub const DEFAULT_POLL_MICROS: u64 = 1000000;

/// What a session runs with; it does not change while the session runs.
#[derive(Debug, Clone, Copy, PartialEq, Eq, Structural)]
pub struct Config {
    /// Length of each wait phase, in microseconds.
    pub wait_micros: u64,
    /// Longest time each poll phase waits for an event, in microseconds.
    pub poll_micros: u64,
    /// The key press that ends the session.
    pub quit: KeyPress,
}

/// One of the two duration options.
#[derive(Debug, Clone, Copy, PartialEq, Eq, Structural)]
pub enum Flag {
    Wait,
    Poll,
}

/// An option whose value is no duration, and why.
#[derive(Debug, Clone, Copy, PartialEq, Eq, Structural)]
pub struct ConfigError {
    pub flag: Flag,
    pub fault: ParseFault,
}

/// The bytes of an option's text, if it was given.
pub open spec fn given_bytes(text: Option<&str>) -> Option<Seq<u8>> {
    match text {
        Some(t) => Some(t.spec_bytes()),
        None => None,
    }
}

/// The value of one option: its text read as microseconds, or `default`
/// where it was not given.
pub open spec fn option_value(text: Option<Seq<u8>>, default: u64) -> Result<u64, ParseFault> {
    match text {
        Some(t) => parse_spec(t),
        None => Ok(default),
    }
}

/// The configuration that the two option texts give; `--wait` is read first,
/// so where both are wrong its error is the one reported.
pub open spec fn resolve_spec(wait: Option<Seq<u8>>, poll: Option<Seq<u8>>) -> Result<
    Config,
    ConfigError,
> {
    match option_value(wait, DEFAULT_WAIT_MICROS) {
        Err(fault) => Err(ConfigError { flag: Flag::Wait, fault }),
        Ok(w) => match option_value(poll, DEFAULT_POLL_MICROS) {
            Err(fault) => Err(ConfigError { flag: Flag::Poll, fault }),
            Ok(p) => Ok(Config { wait_micros: w, poll_micros: p, quit: control_c_spec() }),
        },
    }
}

fn read_option(text: Option<&str>, default: u64) -> (r: Result<u64, ParseFault>)
    ensures
        r == option_value(given_bytes(text), default),
{
    match text {
        Some(t) => parse_micros(t),
        None => Ok(default),
    }
}

/// Builds the configuration from the texts of `--wait` and `--poll` (`None`
/// where an option was not given); the session ends on Control and `c`.
pub fn resolve_config(wait: Option<&str>, poll: Option<&str>) -> (r: Result<Config, ConfigError>)
    ensures
        r == resolve_spec(given_bytes(wait), given_bytes(poll)),
{
    let w = match read_option(wait, DEFAULT_WAIT_MICROS) {
        Ok(w) => w,
        Err(fault) => {
            return Err(ConfigError { flag: Flag::Wait, fault });
        },
    };
    let p = match read_option(poll, DEFAULT_POLL_MICROS) {
        Ok(p) => p,
        Err(fault) => {
            return Err(ConfigError { flag: Flag::Poll, fault });
        },
    };
    Ok(Config { wait_micros: w, poll_micros: p, quit: control_c() })
}

/// Any two non-negative integers written in decimal as `--wait` and `--poll`
/// give exactly those durations, in microseconds.
pub proof fn lemma_resolve_round_trip(w: u64, p: u64)
    ensures
        resolve_spec(Some(decimal(w as nat)), Some(decimal(p as nat))) == Ok::<Config, ConfigError>(
            Config { wait_micros: w, poll_micros: p, quit: control_c_spec() },
        ),
{
    lemma_decimal_round_trip(w);
    lemma_decimal_round_trip(p);
}

} // verus!
