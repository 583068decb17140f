//! A small time-resolution library: it parses a human-supplied time
//! expression (an RFC 3339 timestamp, a local `YYYY-MM-DD HH:MM:SS`
//! pattern, or a relative phrase such as `2 hours ago`) and renders the
//! resolved instant as epoch seconds, epoch milliseconds, or a readable
//! RFC 3339 string truncated to 100-millisecond resolution.

use vstd::prelude::*;

pub mod civil;
pub mod clock;
pub mod format;
pub mod relative;
pub mod resolve;
pub mod instant;
pub mod rfc3339;
pub mod render;

verus! {

/// Which offset the readable rendering is requested under.
///
/// Both choices render at the process's current local offset: the
/// `Utc` label is kept for the caller's sake, but the rendering
/// deliberately applies the local offset captured at formatting time
/// in either case.
#[derive(Clone, Copy, Debug, PartialEq, Eq, Structural)]
pub enum TimeZoneChoice {
    Utc,
    Local,
}

/// Exactly one output mode is active per invocation; a readable
/// rendering always carries its timezone choice.
#[derive(Clone, Copy, Debug, PartialEq, Eq, Structural)]
pub enum OutputMode {
    Epoch,
    Millis,
    Readable(TimeZoneChoice),
}

/// A fault in the combination of output flags, reported before any
/// resolution work runs.
#[derive(Clone, Copy, Debug, PartialEq, Eq, Structural)]
pub enum ConfigError {
    NoModeChosen,
    MultipleModes,
    MissingTimeZone,
    UnexpectedTimeZone,
}

/// A fault while resolving or rendering one invocation.
#[derive(Clone, Copy, Debug, PartialEq, Eq, Structural)]
pub enum TimeError {
    /// The input string matched neither the relative nor the absolute
    /// grammar, or matched but was invalid (ambiguous local time,
    /// duration overflow).
    InputParse,
    /// The resolved instant cannot be rendered as a four-digit-year
    /// RFC 3339 string at the requested offset.
    FormatRange,
}

/// What the flag validation must decide: one mode exactly, and a
/// timezone choice present if and only if the readable mode is chosen.
pub open spec fn spec_validate_output_config(
    epoch: bool,
    millis: bool,
    readable: bool,
    choice: Option<TimeZoneChoice>,
) -> Result<OutputMode, ConfigError> {
    if (epoch && millis) || (epoch && readable) || (millis && readable) {
        Err(ConfigError::MultipleModes)
    } else if !epoch && !millis && !readable {
        Err(ConfigError::NoModeChosen)
    } else if readable {
        match choice {
            Some(tz) => Ok(OutputMode::Readable(tz)),
            None => Err(ConfigError::MissingTimeZone),
        }
    } else if choice is Some {
        Err(ConfigError::UnexpectedTimeZone)
    } else if epoch {
        Ok(OutputMode::Epoch)
    } else {
        Ok(OutputMode::Millis)
    }
}

/// Validates the output flags once, at the boundary: exactly one of
/// `epoch`, `millis`, `readable` must be set, and a timezone choice is
/// required if and only if `readable` is set.
pub fn validate_output_config(
    epoch: bool,
    millis: bool,
    readable: bool,
    choice: Option<TimeZoneChoice>,
) -> (r: Result<OutputMode, ConfigError>)
    ensures
        r == spec_validate_output_config(epoch, millis, readable, choice),
{
    if (epoch && millis) || (epoch && readable) || (millis && readable) {
        Err(ConfigError::MultipleModes)
    } else if !epoch && !millis && !readable {
        Err(ConfigError::NoModeChosen)
    } else if readable {
        match choice {
            Some(tz) => Ok(OutputMode::Readable(tz)),
            None => Err(ConfigError::MissingTimeZone),
        }
    } else if choice.is_some() {
        Err(ConfigError::UnexpectedTimeZone)
    } else if epoch {
        Ok(OutputMode::Epoch)
    } else {
        Ok(OutputMode::Millis)
    }
}

/// A readable rendering without a timezone choice is rejected before
/// any resolution work runs, whatever the other flags say.
pub proof fn lemma_readable_requires_timezone(epoch: bool, millis: bool)
    ensures
        spec_validate_output_config(epoch, millis, true, None) is Err,
{
}

} // verus!
