//! Validation of the arguments of `SHIELD.absorb`.
use vstd::prelude::*;
use vstd::string::*;
use crate::decimal::{parse_i64, parsed_i64};
use crate::error::ShieldError;
use crate::traffic_policy::PolicyConfig;

verus! {

pub const MIN_ARGS_LEN: usize = 4;

pub const MAX_ARGS_LEN: usize = 7;

pub const ARG_KEY_INDEX: usize = 1;

pub const ARG_CAPACITY_INDEX: usize = 2;

pub const ARG_PERIOD_INDEX: usize = 3;

pub const ARG_TOKENS_INDEX: usize = 4;

pub const DEFAULT_TOKENS: i64 = 1;

pub const ARG_ALGORITHM_FLAG: &'static str = "ALGORITHM";

pub const DEFAULT_ALGORITHM: &'static str = "token_bucket";

/// A validated `SHIELD.absorb` request.
pub struct CommandInvocation<'a> {
    pub key: &'a str,
    pub cfg: PolicyConfig,
    pub tokens: i64,
}

/// The code of a character with ASCII upper case letters made lower case.
pub open spec fn ascii_lower_code(c: char) -> u32 {
    if 'A' <= c && c <= 'Z' {
        (c as u32 + 32) as u32
    } else {
        c as u32
    }
}

/// Two texts are equal when ASCII letters are compared without case.
pub open spec fn same_ignoring_ascii_case(a: Seq<char>, b: Seq<char>) -> bool {
    a.len() == b.len() && forall|i: int|
        0 <= i < a.len() ==> ascii_lower_code(#[trigger] a[i]) == ascii_lower_code(b[i])
}

/// Compares two texts, ASCII letters without case.
pub fn eq_ignore_ascii_case(a: &str, b: &str) -> (r: bool)
    ensures
        r == same_ignoring_ascii_case(a@, b@),
{
    let n = a.unicode_len();
    if n != b.unicode_len() {
        return false;
    }
    let mut i: usize = 0;
    while i < n
        invariant
            n == a@.len() == b@.len(),
            0 <= i <= n,
            forall|j: int| 0 <= j < i ==> ascii_lower_code(#[trigger] a@[j]) == ascii_lower_code(
                b@[j],
            ),
        decreases n - i,
    {
        let x = a.get_char(i);
        let y = b.get_char(i);
        let lx: u32 = if 'A' <= x && x <= 'Z' {
            x as u32 + 32
        } else {
            x as u32
        };
        let ly: u32 = if 'A' <= y && y <= 'Z' {
            y as u32 + 32
        } else {
            y as u32
        };
        if lx != ly {
            return false;
        }
        i = i + 1;
    }
    true
}

/// Compares two texts character by character.
pub fn same_text(a: &str, b: &str) -> (r: bool)
    ensures
        r == (a@ == b@),
{
    let n = a.unicode_len();
    if n != b.unicode_len() {
        return false;
    }
    let mut i: usize = 0;
    while i < n
        invariant
            n == a@.len() == b@.len(),
            0 <= i <= n,
            forall|j: int| 0 <= j < i ==> a@[j] == b@[j],
        decreases n - i,
    {
        if a.get_char(i) != b.get_char(i) {
            return false;
        }
        i = i + 1;
    }
    assert(a@ =~= b@);
    true
}

/// A positive integer argument, or `err`.
pub open spec fn positive_arg(s: Seq<char>, err: ShieldError) -> Result<i64, ShieldError> {
    match parsed_i64(s) {
        Some(v) => if v > 0 {
            Ok(v)
        } else {
            Err(err)
        },
        None => Err(err),
    }
}

pub open spec fn is_algorithm_flag(s: Seq<char>) -> bool {
    same_ignoring_ascii_case(s, ARG_ALGORITHM_FLAG@)
}

/// The algorithm name and the units that the arguments' layout gives.
pub open spec fn layout_of(args: Seq<&str>) -> Result<(Seq<char>, i64), ShieldError> {
    let n = args.len();
    if n < 4 || n > 7 {
        Err(ShieldError::WrongArity)
    } else if n == 4 {
        Ok((DEFAULT_ALGORITHM@, DEFAULT_TOKENS))
    } else if n == 5 {
        if is_algorithm_flag(args[4]@) {
            Err(ShieldError::AlgorithmValueMissing)
        } else {
            match positive_arg(args[4]@, ShieldError::TokensNotPositive) {
                Ok(t) => Ok((DEFAULT_ALGORITHM@, t)),
                Err(e) => Err(e),
            }
        }
    } else if n == 6 {
        if is_algorithm_flag(args[4]@) {
            Ok((args[5]@, DEFAULT_TOKENS))
        } else if is_algorithm_flag(args[5]@) {
            Err(ShieldError::AlgorithmValueMissing)
        } else {
            Err(ShieldError::WrongArity)
        }
    } else if !is_algorithm_flag(args[5]@) {
        Err(ShieldError::WrongArity)
    } else {
        match positive_arg(args[4]@, ShieldError::TokensNotPositive) {
            Ok(t) => Ok((args[6]@, t)),
            Err(e) => Err(e),
        }
    }
}

/// The policy named `algorithm` with the capacity and period arguments.
pub open spec fn config_of(algorithm: Seq<char>, capacity: Seq<char>, period: Seq<char>) -> Result<
    PolicyConfig,
    ShieldError,
> {
    match positive_arg(capacity, ShieldError::CapacityNotPositive) {
        Err(e) => Err(e),
        Ok(capacity) => match positive_arg(period, ShieldError::PeriodNotPositive) {
            Err(e) => Err(e),
            Ok(period) => if algorithm == "token_bucket"@ {
                Ok(PolicyConfig::TokenBucket { capacity, period })
            } else if algorithm == "leaky_bucket"@ {
                Ok(PolicyConfig::LeakyBucket { capacity, period })
            } else if algorithm == "fixed_window"@ {
                Ok(PolicyConfig::FixedWindow { capacity, period })
            } else if algorithm == "sliding_window"@ {
                Ok(PolicyConfig::SlidingWindow { capacity, period })
            } else {
                Err(ShieldError::UnknownAlgorithm)
            },
        },
    }
}

/// Validates the arguments `SHIELD.absorb <key> <capacity> <period> [<units>]
/// [ALGORITHM <name>]`, the command name first.
pub fn parse_command_args<'a>(args: &[&'a str]) -> (r: Result<CommandInvocation<'a>, ShieldError>)
    ensures
        match layout_of(args@) {
            Err(e) => r matches Err(x) && x == e,
            Ok((algorithm, tokens)) => match config_of(algorithm, args@[2]@, args@[3]@) {
                Err(e) => r matches Err(x) && x == e,
                Ok(cfg) => r matches Ok(inv) && inv.cfg == cfg && inv.tokens == tokens && inv.key@
                    == args@[1]@,
            },
        },
{
    let n = args.len();
    if n < MIN_ARGS_LEN || n > MAX_ARGS_LEN {
        return Err(ShieldError::WrongArity);
    }
    let (algorithm, tokens): (&str, i64) = if n == MIN_ARGS_LEN {
        (DEFAULT_ALGORITHM, DEFAULT_TOKENS)
    } else if n == 5 {
        if eq_ignore_ascii_case(args[ARG_TOKENS_INDEX], ARG_ALGORITHM_FLAG) {
            return Err(ShieldError::AlgorithmValueMissing);
        }
        match parse_positive_integer(args[ARG_TOKENS_INDEX], ShieldError::TokensNotPositive) {
            Ok(t) => (DEFAULT_ALGORITHM, t),
            Err(e) => return Err(e),
        }
    } else if n == 6 {
        if eq_ignore_ascii_case(args[ARG_TOKENS_INDEX], ARG_ALGORITHM_FLAG) {
            (args[ARG_TOKENS_INDEX + 1], DEFAULT_TOKENS)
        } else if eq_ignore_ascii_case(args[ARG_TOKENS_INDEX + 1], ARG_ALGORITHM_FLAG) {
            return Err(ShieldError::AlgorithmValueMissing);
        } else {
            return Err(ShieldError::WrongArity);
        }
    } else {
        if !eq_ignore_ascii_case(args[ARG_TOKENS_INDEX + 1], ARG_ALGORITHM_FLAG) {
            return Err(ShieldError::WrongArity);
        }
        match parse_positive_integer(args[ARG_TOKENS_INDEX], ShieldError::TokensNotPositive) {
            Ok(t) => (args[ARG_TOKENS_INDEX + 2], t),
            Err(e) => return Err(e),
        }
    };
    let cfg = match create_algorithm_config(
        algorithm,
        args[ARG_CAPACITY_INDEX],
        args[ARG_PERIOD_INDEX],
    ) {
        Ok(cfg) => cfg,
        Err(e) => return Err(e),
    };
    Ok(CommandInvocation { key: args[ARG_KEY_INDEX], cfg, tokens })
}

/// Builds the policy named `algorithm`, validating capacity and period first.
pub fn create_algorithm_config(algorithm: &str, capacity: &str, period: &str) -> (r: Result<
    PolicyConfig,
    ShieldError,
>)
    ensures
        r == config_of(algorithm@, capacity@, period@),
{
    let capacity = match parse_positive_integer(capacity, ShieldError::CapacityNotPositive) {
        Ok(v) => v,
        Err(e) => return Err(e),
    };
    let period = match parse_positive_integer(period, ShieldError::PeriodNotPositive) {
        Ok(v) => v,
        Err(e) => return Err(e),
    };
    if same_text(algorithm, "token_bucket") {
        Ok(PolicyConfig::TokenBucket { capacity, period })
    } else if same_text(algorithm, "leaky_bucket") {
        Ok(PolicyConfig::LeakyBucket { capacity, period })
    } else if same_text(algorithm, "fixed_window") {
        Ok(PolicyConfig::FixedWindow { capacity, period })
    } else if same_text(algorithm, "sliding_window") {
        Ok(PolicyConfig::SlidingWindow { capacity, period })
    } else {
        Err(ShieldError::UnknownAlgorithm)
    }
}

/// Reads a positive integer argument; `err` when it is not one.
pub fn parse_positive_integer(value: &str, err: ShieldError) -> (r: Result<i64, ShieldError>)
    ensures
        r == positive_arg(value@, err),
{
    match parse_i64(value) {
        Some(v) => if v > 0 {
            Ok(v)
        } else {
            Err(err)
        },
        None => Err(err),
    }
}

} // verus!
