//! Errors reported to the client of the rate limiter.
use vstd::prelude::*;

verus! {

/// Why a request could not be decided.
#[derive(Debug, Clone, Copy, PartialEq, Eq, Structural)]
pub enum ShieldError {
    /// The command was given a number or layout of arguments it does not take.
    WrongArity,
    CapacityNotPositive,
    PeriodNotPositive,
    TokensNotPositive,
    /// The period in milliseconds does not fit in 64 bits.
    PeriodTooLarge,
    AlgorithmValueMissing,
    UnknownAlgorithm,
    /// The stored token bucket balance is no integer.
    InvalidTokenCount,
    /// The stored leaky bucket level is no integer.
    InvalidBucketLevel,
    /// The stored fixed window counter is no integer.
    InvalidWindowCounter,
    /// The store's clock gave no usable reading.
    TimeUnavailable,
}

impl ShieldError {
    /// The text that the client sees.
    pub fn message(&self) -> (r: &'static str)
        ensures
            *self == ShieldError::CapacityNotPositive ==> r@ == "ERR capacity must be positive"@,
            *self == ShieldError::PeriodNotPositive ==> r@ == "ERR period/window must be positive"@,
            *self == ShieldError::TokensNotPositive ==> r@ == "ERR tokens must be positive"@,
            *self == ShieldError::PeriodTooLarge ==> r@ == "ERR period value too large"@,
            *self == ShieldError::AlgorithmValueMissing ==> r@ == "ERR algorithm value missing"@,
            *self == ShieldError::UnknownAlgorithm ==> r@
                == "ERR unknown algorithm, supported are [token_bucket, leaky_bucket, fixed_window, sliding_window]"@,
            *self == ShieldError::InvalidTokenCount ==> r@ == "ERR invalid token count in Redis"@,
            *self == ShieldError::InvalidBucketLevel ==> r@ == "ERR invalid bucket level in Redis"@,
            *self == ShieldError::InvalidWindowCounter ==> r@
                == "ERR invalid fixed window counter in Redis"@,
            *self == ShieldError::TimeUnavailable ==> r@ == "ERR unable to fetch Redis time"@,
            *self == ShieldError::WrongArity ==> r@
                == "ERR wrong number of arguments for 'SHIELD.absorb' command"@,
    {
        match self {
            ShieldError::WrongArity => "ERR wrong number of arguments for 'SHIELD.absorb' command",
            ShieldError::CapacityNotPositive => "ERR capacity must be positive",
            ShieldError::PeriodNotPositive => "ERR period/window must be positive",
            ShieldError::TokensNotPositive => "ERR tokens must be positive",
            ShieldError::PeriodTooLarge => "ERR period value too large",
            ShieldError::AlgorithmValueMissing => "ERR algorithm value missing",
            ShieldError::UnknownAlgorithm => "ERR unknown algorithm, supported are [token_bucket, leaky_bucket, fixed_window, sliding_window]",
            ShieldError::InvalidTokenCount => "ERR invalid token count in Redis",
            ShieldError::InvalidBucketLevel => "ERR invalid bucket level in Redis",
            ShieldError::InvalidWindowCounter => "ERR invalid fixed window counter in Redis",
            ShieldError::TimeUnavailable => "ERR unable to fetch Redis time",
        }
    }
}

} // verus!
