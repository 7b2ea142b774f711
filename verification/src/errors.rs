//! The closed set of failures that the pair's operations report.

use vstd::prelude::*;

verus! {

/// Why an operation of the pair was refused.
///
/// Each variant has a numeric code that callers see across the contract
/// boundary. The codes are fixed: `code` and `from_code` convert between
/// them and the variants. Only the first three are reported by the
/// operations of this crate; the others are reserved for liquidity and swap
/// operations.
#[derive(Copy, Clone, Debug, Eq, PartialEq, PartialOrd, Ord, Structural)]
pub enum PairError {
    AlreadyInitialized,
    ZeroAddress,
    IdenticalTokens,
    InsufficientLiquidityMinted,
    InsufficientLiquidityBurned,
    InsufficientOutputAmount,
    InsufficientLiquidity,
    InvalidAmount,
    KInvariant,
    InsufficientInputAmount,
    Locked,
    Expired,
    ConstraintNotMet,
    InvalidFee,
}

impl PairError {
    /// The numeric code of each failure.
    pub open spec fn code_spec(self) -> u32 {
        match self {
            PairError::AlreadyInitialized => 100,
            PairError::ZeroAddress => 101,
            PairError::IdenticalTokens => 102,
            PairError::InsufficientLiquidityMinted => 103,
            PairError::InsufficientLiquidityBurned => 104,
            PairError::InsufficientOutputAmount => 105,
            PairError::InsufficientLiquidity => 106,
            PairError::InvalidAmount => 107,
            PairError::KInvariant => 108,
            PairError::InsufficientInputAmount => 109,
            PairError::Locked => 110,
            PairError::Expired => 111,
            PairError::ConstraintNotMet => 112,
            PairError::InvalidFee => 113,
        }
    }

    /// The failure that a code stands for, if it stands for one.
    pub open spec fn with_code(code: u32) -> Option<PairError> {
        match code {
            100 => Some(PairError::AlreadyInitialized),
            101 => Some(PairError::ZeroAddress),
            102 => Some(PairError::IdenticalTokens),
            103 => Some(PairError::InsufficientLiquidityMinted),
            104 => Some(PairError::InsufficientLiquidityBurned),
            105 => Some(PairError::InsufficientOutputAmount),
            106 => Some(PairError::InsufficientLiquidity),
            107 => Some(PairError::InvalidAmount),
            108 => Some(PairError::KInvariant),
            109 => Some(PairError::InsufficientInputAmount),
            110 => Some(PairError::Locked),
            111 => Some(PairError::Expired),
            112 => Some(PairError::ConstraintNotMet),
            113 => Some(PairError::InvalidFee),
            _ => None,
        }
    }

    /// The numeric code of this failure.
    pub fn code(self) -> (code: u32)
        ensures
            code == self.code_spec(),
    {
        match self {
            PairError::AlreadyInitialized => 100,
            PairError::ZeroAddress => 101,
            PairError::IdenticalTokens => 102,
            PairError::InsufficientLiquidityMinted => 103,
            PairError::InsufficientLiquidityBurned => 104,
            PairError::InsufficientOutputAmount => 105,
            PairError::InsufficientLiquidity => 106,
            PairError::InvalidAmount => 107,
            PairError::KInvariant => 108,
            PairError::InsufficientInputAmount => 109,
            PairError::Locked => 110,
            PairError::Expired => 111,
            PairError::ConstraintNotMet => 112,
            PairError::InvalidFee => 113,
        }
    }

    /// The failure with the given code, if there is one.
    pub fn from_code(code: u32) -> (error: Option<PairError>)
        ensures
            error == PairError::with_code(code),
    {
        match code {
            100 => Some(PairError::AlreadyInitialized),
            101 => Some(PairError::ZeroAddress),
            102 => Some(PairError::IdenticalTokens),
            103 => Some(PairError::InsufficientLiquidityMinted),
            104 => Some(PairError::InsufficientLiquidityBurned),
            105 => Some(PairError::InsufficientOutputAmount),
            106 => Some(PairError::InsufficientLiquidity),
            107 => Some(PairError::InvalidAmount),
            108 => Some(PairError::KInvariant),
            109 => Some(PairError::InsufficientInputAmount),
            110 => Some(PairError::Locked),
            111 => Some(PairError::Expired),
            112 => Some(PairError::ConstraintNotMet),
            113 => Some(PairError::InvalidFee),
            _ => None,
        }
    }
}

/// No two failures share a code.
pub proof fn lemma_codes_are_distinct(a: PairError, b: PairError)
    requires
        a.code_spec() == b.code_spec(),
    ensures
        a == b,
{
}

/// A code stands for a failure exactly when it is that failure's code.
pub proof fn lemma_with_code_inverts_code(e: PairError, code: u32)
    ensures
        PairError::with_code(code) == Some(e) <==> e.code_spec() == code,
        100 <= e.code_spec() <= 113,
{
}

} // verus!
