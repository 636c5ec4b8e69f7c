//! The external reason-code surface: a stable, representation-independent
//! failure identifier for every chain-state error variant, and the
//! structured report handed to clients outside the node.
//!
//! Only the reason code is part of the stability contract; the diagnostic
//! string is explicitly free-form and may change between versions.

use crate::errors::{chainstate_debug_render, ChainstateError};
use vstd::prelude::*;

verus! {

/// The JSON value type of the serializer, carried opaquely; the library
/// only builds one through `json_report` and hands it out.
#[verifier::external_type_specification]
#[verifier::external_body]
pub struct ExJsonValue(serde_json::Value);

/// The JSON object `{"error": e, "reason": r, "reason_data": d}`, as the
/// serializer builds it from the three field strings.
pub uninterp spec fn report_json(e: Seq<char>, r: Seq<char>, d: Seq<char>) -> serde_json::Value;

/// Relies on serde_json's Map and Value constructors: builds the object
/// `{"error": e, "reason": r, "reason_data": d}`, a function of the three
/// strings alone.
#[verifier::external_body]
fn json_report(e: String, r: String, d: String) -> (v: serde_json::Value)
    ensures
        v == report_json(e@, r@, d@),
{
    let mut m = serde_json::Map::new();
    m.insert("error".to_string(), serde_json::Value::String(e));
    m.insert("reason".to_string(), serde_json::Value::String(r));
    m.insert("reason_data".to_string(), serde_json::Value::String(d));
    serde_json::Value::Object(m)
}

impl ChainstateError {
    /// The stable reason code of each variant: its fixed name, independent
    /// of whatever payload the variant carries.
    pub open spec fn reason_code(&self) -> Seq<char> {
        match self {
            ChainstateError::InvalidFee => "InvalidFee"@,
            ChainstateError::InvalidStacksBlock(..) => "InvalidStacksBlock"@,
            ChainstateError::InvalidStacksMicroblock(..) => "InvalidStacksMicroblock"@,
            ChainstateError::InvalidStacksTransaction(..) => "InvalidStacksTransaction"@,
            ChainstateError::PostConditionFailed(..) => "PostConditionFailed"@,
            ChainstateError::NoSuchBlockError => "NoSuchBlockError"@,
            ChainstateError::InvalidChainstateDB => "InvalidChainstateDB"@,
            ChainstateError::BlockTooBigError => "BlockTooBigError"@,
            ChainstateError::BlockCostExceeded => "BlockCostExceeded"@,
            ChainstateError::NoTransactionsToMine => "NoTransactionsToMine"@,
            ChainstateError::MicroblockStreamTooLongError => "MicroblockStreamTooLongError"@,
            ChainstateError::IncompatibleSpendingConditionError => "IncompatibleSpendingConditionError"@,
            ChainstateError::CostOverflowError(..) => "CostOverflowError"@,
            ChainstateError::ClarityError(..) => "ClarityError"@,
            ChainstateError::DBError(..) => "DBError"@,
            ChainstateError::NetError(..) => "NetError"@,
            ChainstateError::MARFError(..) => "MARFError"@,
            ChainstateError::ReadError(..) => "ReadError"@,
            ChainstateError::WriteError(..) => "WriteError"@,
            ChainstateError::MemPoolError(..) => "MemPoolError"@,
            ChainstateError::PoxAlreadyLocked => "PoxAlreadyLocked"@,
            ChainstateError::PoxInsufficientBalance => "PoxInsufficientBalance"@,
            ChainstateError::PoxNoRewardCycle => "PoxNoRewardCycle"@,
        }
    }

    /// Whether two errors are the same variant, whatever their payloads.
    pub open spec fn same_variant(&self, other: &ChainstateError) -> bool {
        match (self, other) {
            (ChainstateError::InvalidFee, ChainstateError::InvalidFee) => true,
            (
                ChainstateError::InvalidStacksBlock(..),
                ChainstateError::InvalidStacksBlock(..),
            ) => true,
            (
                ChainstateError::InvalidStacksMicroblock(..),
                ChainstateError::InvalidStacksMicroblock(..),
            ) => true,
            (
                ChainstateError::InvalidStacksTransaction(..),
                ChainstateError::InvalidStacksTransaction(..),
            ) => true,
            (
                ChainstateError::PostConditionFailed(..),
                ChainstateError::PostConditionFailed(..),
            ) => true,
            (ChainstateError::NoSuchBlockError, ChainstateError::NoSuchBlockError) => true,
            (ChainstateError::InvalidChainstateDB, ChainstateError::InvalidChainstateDB) => true,
            (ChainstateError::BlockTooBigError, ChainstateError::BlockTooBigError) => true,
            (ChainstateError::BlockCostExceeded, ChainstateError::BlockCostExceeded) => true,
            (
                ChainstateError::NoTransactionsToMine,
                ChainstateError::NoTransactionsToMine,
            ) => true,
            (
                ChainstateError::MicroblockStreamTooLongError,
                ChainstateError::MicroblockStreamTooLongError,
            ) => true,
            (
                ChainstateError::IncompatibleSpendingConditionError,
                ChainstateError::IncompatibleSpendingConditionError,
            ) => true,
            (
                ChainstateError::CostOverflowError(..),
                ChainstateError::CostOverflowError(..),
            ) => true,
            (ChainstateError::ClarityError(..), ChainstateError::ClarityError(..)) => true,
            (ChainstateError::DBError(..), ChainstateError::DBError(..)) => true,
            (ChainstateError::NetError(..), ChainstateError::NetError(..)) => true,
            (ChainstateError::MARFError(..), ChainstateError::MARFError(..)) => true,
            (ChainstateError::ReadError(..), ChainstateError::ReadError(..)) => true,
            (ChainstateError::WriteError(..), ChainstateError::WriteError(..)) => true,
            (ChainstateError::MemPoolError(..), ChainstateError::MemPoolError(..)) => true,
            (ChainstateError::PoxAlreadyLocked, ChainstateError::PoxAlreadyLocked) => true,
            (
                ChainstateError::PoxInsufficientBalance,
                ChainstateError::PoxInsufficientBalance,
            ) => true,
            (ChainstateError::PoxNoRewardCycle, ChainstateError::PoxNoRewardCycle) => true,
            _ => false,
        }
    }

    /// The stable reason code of this error's variant.
    fn name(&self) -> (r: &'static str)
        ensures
            r@ == self.reason_code(),
    {
        match self {
            ChainstateError::InvalidFee => "InvalidFee",
            ChainstateError::InvalidStacksBlock(..) => "InvalidStacksBlock",
            ChainstateError::InvalidStacksMicroblock(..) => "InvalidStacksMicroblock",
            ChainstateError::InvalidStacksTransaction(..) => "InvalidStacksTransaction",
            ChainstateError::PostConditionFailed(..) => "PostConditionFailed",
            ChainstateError::NoSuchBlockError => "NoSuchBlockError",
            ChainstateError::InvalidChainstateDB => "InvalidChainstateDB",
            ChainstateError::BlockTooBigError => "BlockTooBigError",
            ChainstateError::BlockCostExceeded => "BlockCostExceeded",
            ChainstateError::NoTransactionsToMine => "NoTransactionsToMine",
            ChainstateError::MicroblockStreamTooLongError => "MicroblockStreamTooLongError",
            ChainstateError::IncompatibleSpendingConditionError => {
                "IncompatibleSpendingConditionError"
            },
            ChainstateError::CostOverflowError(..) => "CostOverflowError",
            ChainstateError::ClarityError(..) => "ClarityError",
            ChainstateError::DBError(..) => "DBError",
            ChainstateError::NetError(..) => "NetError",
            ChainstateError::MARFError(..) => "MARFError",
            ChainstateError::ReadError(..) => "ReadError",
            ChainstateError::WriteError(..) => "WriteError",
            ChainstateError::MemPoolError(..) => "MemPoolError",
            ChainstateError::PoxAlreadyLocked => "PoxAlreadyLocked",
            ChainstateError::PoxInsufficientBalance => "PoxInsufficientBalance",
            ChainstateError::PoxNoRewardCycle => "PoxNoRewardCycle",
        }
    }

    /// The structured failure report for an external client: the fixed
    /// category, this variant's stable reason code, and a free-form
    /// diagnostic derived from the error's debug rendering. Only the
    /// reason code is stable; the diagnostic may change between versions.
    pub fn into_json(&self) -> (r: serde_json::Value)
        ensures
            exists|data: Seq<char>|
                r == #[trigger] report_json("chainstate error"@, self.reason_code(), data),
    {
        let reason_code = self.name();
        let reason_data = chainstate_debug_render(self);
        let ghost data = reason_data@;
        let result = json_report(
            "chainstate error".to_owned(),
            reason_code.to_owned(),
            reason_data,
        );
        proof {
            assert(result == report_json("chainstate error"@, self.reason_code(), data));
        }
        result
    }
}

/// Law (reason-code stability): two errors of the same variant have the
/// same reason code, whatever payloads they carry — the code names the
/// variant, never the data inside it.
pub proof fn lemma_reason_code_stable(a: &ChainstateError, b: &ChainstateError)
    requires
        a.same_variant(b),
    ensures
        a.reason_code() == b.reason_code(),
{
}

} // verus!
