//! Plain-value models of the contract-execution engine's data that the
//! error taxonomy carries: execution costs, diagnostics, expressions and
//! the values that failed operations report.

use crate::errors::DiagnosableError;
use crate::text::{dec_i128, dec_u128, dec_u64, spec_dec, spec_dec_int};
use vstd::prelude::*;
use vstd::string::StringExecFns;

verus! {

/// The deepest expression nesting the execution engine accepts.
pub const MAX_CALL_STACK_DEPTH: u64 = 64;

/// The multi-dimensional cost of executing contract code.
#[derive(Debug, Clone, Copy, PartialEq, Eq)]
pub struct ExecutionCost {
    pub write_length: u64,
    pub write_count: u64,
    pub read_length: u64,
    pub read_count: u64,
    pub runtime: u64,
}

impl ExecutionCost {
    /// The greatest representable cost, used when an overflowing cost
    /// computation is collapsed to a saturated cost/budget pair.
    pub open spec fn spec_max_value() -> ExecutionCost {
        ExecutionCost {
            write_length: u64::MAX,
            write_count: u64::MAX,
            read_length: u64::MAX,
            read_count: u64::MAX,
            runtime: u64::MAX,
        }
    }

    pub fn max_value() -> (r: ExecutionCost)
        ensures
            r == ExecutionCost::spec_max_value(),
    {
        ExecutionCost {
            write_length: u64::MAX,
            write_count: u64::MAX,
            read_length: u64::MAX,
            read_count: u64::MAX,
            runtime: u64::MAX,
        }
    }
}

/// The running cost account of an execution context: what has been spent
/// and what the budget allows.
#[derive(Debug, Clone, Copy, PartialEq, Eq)]
pub struct LimitedCostTracker {
    pub total: ExecutionCost,
    pub limit: ExecutionCost,
}

impl LimitedCostTracker {
    pub fn get_total(&self) -> (r: ExecutionCost)
        ensures
            r == self.total,
    {
        self.total
    }

    pub fn get_limit(&self) -> (r: ExecutionCost)
        ensures
            r == self.limit,
    {
        self.limit
    }
}

/// The slice of an execution context that cost-error translation reads.
#[derive(Debug, Clone, Copy, PartialEq, Eq)]
pub struct GlobalContext {
    pub cost_track: LimitedCostTracker,
}

/// A value computed by contract code.
#[derive(Debug, Clone, PartialEq, Eq)]
pub enum ClarityValue {
    Bool(bool),
    Int(i128),
    UInt(u128),
}

/// The printed form of a contract type, carried so that diagnostics can
/// name the types involved in a failure.
#[derive(Debug, Clone, PartialEq, Eq)]
pub struct TypeSignature {
    pub repr: String,
}

/// The printed form of a tuple type.
#[derive(Debug, Clone, PartialEq, Eq)]
pub struct TupleTypeSignature {
    pub repr: String,
}

/// A source location range.
#[derive(Debug, Clone, Copy, PartialEq, Eq)]
pub struct Span {
    pub start_line: u32,
    pub start_column: u32,
    pub end_line: u32,
    pub end_column: u32,
}

/// A parsed expression, identified by its id and source span.
#[derive(Debug, Clone, Copy, PartialEq, Eq)]
pub struct SymbolicExpression {
    pub id: u64,
    pub span: Span,
}

/// An expression as it stands before expansion, identified by its id and
/// source span.
#[derive(Debug, Clone, Copy, PartialEq, Eq)]
pub struct PreSymbolicExpression {
    pub id: u64,
    pub span: Span,
}

/// The names of the functions on the call stack when a runtime error was
/// raised, innermost last.
pub type StackTrace = Vec<String>;

/// How serious a diagnostic is.
#[derive(Debug, Clone, Copy, PartialEq, Eq)]
pub enum Level {
    Note,
    Warning,
    Error,
}

/// A human-readable account of a failure: severity, message, the source
/// spans involved, and an optional suggestion.
#[derive(Debug, Clone, PartialEq, Eq)]
pub struct Diagnostic {
    pub level: Level,
    pub message: String,
    pub spans: Vec<Span>,
    pub suggestion: Option<String>,
}

impl Diagnostic {
    /// An error-level diagnostic built from any diagnosable failure.
    pub fn err<E: DiagnosableError>(e: &E) -> (r: Diagnostic)
        ensures
            r.level is Error,
            r.spans@.len() == 0,
    {
        Diagnostic { level: Level::Error, message: e.message(), spans: Vec::new(), suggestion: e.suggestion() }
    }
}

/// The assets moved by a transaction, handed back when a post-condition
/// callback aborts it. Its contents belong to the execution engine and are
/// not read by the error layers.
#[derive(Debug, Clone, PartialEq, Eq)]
pub struct AssetMap {}

/// An event emitted by a transaction, handed back when a post-condition
/// callback aborts it. Its contents belong to the execution engine and are
/// not read by the error layers.
#[derive(Debug, Clone, PartialEq, Eq)]
pub struct StacksTransactionEvent {}

impl ClarityValue {
    /// The printed form of the value: booleans as words, signed integers
    /// plain, unsigned integers with a `u` prefix.
    pub open spec fn spec_describe(&self) -> Seq<char> {
        match self {
            ClarityValue::Bool(b) => if *b {
                "true"@
            } else {
                "false"@
            },
            ClarityValue::Int(i) => spec_dec_int(*i as int),
            ClarityValue::UInt(u) => "u"@ + spec_dec(*u as nat),
        }
    }

    /// Renders the value exactly as `spec_describe` says.
    pub fn describe(&self) -> (r: String)
        ensures
            r@ == self.spec_describe(),
    {
        match self {
            ClarityValue::Bool(b) => {
                if *b {
                    "true".to_owned()
                } else {
                    "false".to_owned()
                }
            },
            ClarityValue::Int(i) => dec_i128(*i),
            ClarityValue::UInt(u) => {
                let mut r = "u".to_owned();
                r.append(dec_u128(*u).as_str());
                r
            },
        }
    }
}

impl ExecutionCost {
    /// The printed form of the cost's five dimensions.
    pub open spec fn spec_describe(&self) -> Seq<char> {
        "{runtime: "@ + spec_dec(self.runtime as nat) + ", write_len: "@ + spec_dec(
            self.write_length as nat,
        ) + ", write_cnt: "@ + spec_dec(self.write_count as nat) + ", read_len: "@ + spec_dec(
            self.read_length as nat,
        ) + ", read_cnt: "@ + spec_dec(self.read_count as nat) + "}"@
    }

    /// Renders the cost exactly as `spec_describe` says.
    pub fn describe(&self) -> (r: String)
        ensures
            r@ == self.spec_describe(),
    {
        let mut r = "{runtime: ".to_owned();
        r.append(dec_u64(self.runtime).as_str());
        r.append(", write_len: ");
        r.append(dec_u64(self.write_length).as_str());
        r.append(", write_cnt: ");
        r.append(dec_u64(self.write_count).as_str());
        r.append(", read_len: ");
        r.append(dec_u64(self.read_length).as_str());
        r.append(", read_cnt: ");
        r.append(dec_u64(self.read_count).as_str());
        r.append("}");
        proof {
            assert(r@ =~= self.spec_describe());
        }
        r
    }
}

impl Span {
    /// The printed form of the span's start position, as line:column.
    pub open spec fn spec_describe(&self) -> Seq<char> {
        spec_dec(self.start_line as nat) + ":"@ + spec_dec(self.start_column as nat)
    }

    /// Renders the span's start exactly as `spec_describe` says.
    pub fn describe(&self) -> (r: String)
        ensures
            r@ == self.spec_describe(),
    {
        let mut r = dec_u64(self.start_line as u64);
        r.append(":");
        r.append(dec_u64(self.start_column as u64).as_str());
        r
    }
}

/// What went wrong while a cursor walked the storage index's trie.
#[derive(Debug, Clone, PartialEq, Eq)]
pub struct CursorError {
    pub description: String,
}

} // verus!
