//! The layered error taxonomy: one closed variant set per subsystem layer,
//! and the directed translation rules between the layers.
//!
//! Each layer wraps only the layers immediately below it in the dependency
//! order: persistence and index errors flow into the interpreter-facing
//! layer; analysis, parse and cost errors flow into the engine-facing layer;
//! everything terminates at the chain-state or network layer.

use crate::text::{hex_bytes32, spec_dec, spec_hex};
use crate::types::{BlockHeaderHash, NeighborKey};
use crate::vm::{
    AssetMap, CursorError, Diagnostic, ExecutionCost, GlobalContext, PreSymbolicExpression, Span,
    StacksTransactionEvent, StackTrace, SymbolicExpression, TupleTypeSignature, TypeSignature,
    ClarityValue,
};
use vstd::prelude::*;
use vstd::string::StringExecFns;

verus! {

/// The I/O failure type of the standard library, carried opaquely inside
/// read- and write-class errors.
#[verifier::external_type_specification]
#[verifier::external_body]
pub struct ExIoError(std::io::Error);

/// The failure type of the SQL persistence backend, carried opaquely.
#[verifier::external_type_specification]
#[verifier::external_body]
pub struct ExSqliteError(rusqlite::Error);

/// The failure type of the JSON serializer, carried opaquely.
#[verifier::external_type_specification]
#[verifier::external_body]
pub struct ExJsonError(serde_json::Error);

/// A failure that can explain itself to a human: a message, and possibly a
/// suggestion on how to repair the input.
pub trait DiagnosableError {
    /// The message text of a variant whose message is a fixed literal;
    /// `None` for variants whose message renders a payload.
    spec fn fixed_message(&self) -> Option<Seq<char>>;

    /// Whether this failure comes with a repair suggestion.
    spec fn gives_suggestion(&self) -> bool;

    fn message(&self) -> (r: String)
        ensures
            self.fixed_message() matches Some(t) ==> r@ == t,
    ;

    fn suggestion(&self) -> (r: Option<String>)
        ensures
            r is Some <==> self.gives_suggestion(),
    ;
}

/// Wraps a payload whose own notion of equality is unavailable or
/// meaningless; two wrapped values never compare equal.
#[derive(Debug)]
pub struct IncomparableError<T> {
    pub err: T,
}

impl<T> PartialEq for IncomparableError<T> {
    fn eq(&self, _other: &IncomparableError<T>) -> (r: bool) {
        false
    }
}

impl<T> vstd::std_specs::cmp::PartialEqSpecImpl for IncomparableError<T> {
    open spec fn obeys_eq_spec() -> bool {
        true
    }

    open spec fn eq_spec(&self, _other: &IncomparableError<T>) -> bool {
        false
    }
}

/// Errors of the network layer: the codec, the transport and peer sessions.
#[derive(Debug)]
pub enum NetworkError {
    /// Failed to encode
    SerializeError(String),
    /// Failed to read
    ReadError(std::io::Error),
    /// Failed to decode
    DeserializeError(String),
    /// Failed to write
    WriteError(std::io::Error),
    /// Underflow -- not enough bytes to form the message
    UnderflowError(String),
    /// Overflow -- message too big
    OverflowError(String),
    /// Wrong protocol family
    WrongProtocolFamily,
    /// Array is too big
    ArrayTooLong,
    /// Receive timed out
    RecvTimeout,
    /// Error signing a message
    SigningError(String),
    /// Error verifying a message
    VerifyingError(String),
    /// Read stream is drained.  Try again
    TemporarilyDrained,
    /// Read stream has reached EOF (socket closed, end-of-file reached, etc.)
    PermanentlyDrained,
    /// Failed to read from the FS
    FilesystemError,
    /// Database error
    DBError(DBError),
    /// Socket mutex was poisoned
    SocketMutexPoisoned,
    /// Socket not instantiated
    SocketNotConnectedToPeer,
    /// Not connected to peer
    ConnectionBroken,
    /// Connection could not be (re-)established
    ConnectionError,
    /// Too many outgoing messages
    OutboxOverflow,
    /// Too many incoming messages
    InboxOverflow,
    /// Send error
    SendError(String),
    /// Recv error
    RecvError(String),
    /// Invalid message
    InvalidMessage,
    /// Invalid network handle
    InvalidHandle,
    /// Network handle is full
    FullHandle,
    /// Invalid handshake
    InvalidHandshake,
    /// Stale neighbor
    StaleNeighbor,
    /// No such neighbor
    NoSuchNeighbor,
    /// Failed to bind
    BindError,
    /// Failed to poll
    PollError,
    /// Failed to accept
    AcceptError,
    /// Failed to register socket with poller
    RegisterError,
    /// Failed to query socket metadata
    SocketError,
    /// server is not bound to a socket
    NotConnected,
    /// Remote peer is not connected
    PeerNotConnected,
    /// Too many peers
    TooManyPeers,
    /// Peer already connected
    AlreadyConnected(usize, NeighborKey),
    /// Message already in progress
    InProgress,
    /// Peer is denied
    Denied,
    /// Data URL is not known
    NoDataUrl,
    /// Peer is transmitting too fast
    PeerThrottled,
    /// Error resolving a DNS name
    LookupError(String),
    /// MARF error, percolated up from chainstate
    MARFError(MarfError),
    /// Clarity VM error, percolated up from chainstate
    ClarityError(ClarityError),
    /// Catch-all for chainstate errors that don't map cleanly into network errors
    ChainstateError(String),
    /// Catch-all for errors that a client should receive more information about
    ClientError(ClientError),
    /// Coordinator hung up
    CoordinatorClosed,
    /// view of state is stale (e.g. from the sortition db)
    StaleView,
    /// Tried to connect to myself
    ConnectionCycle,
    /// Requested data not found
    NotFoundError,
}

/// Errors of the persistence layer (the storage backend).
#[derive(Debug)]
pub enum DBError {
    /// Not implemented
    NotImplemented,
    /// Database doesn't exist
    NoDBError,
    /// Read-only and tried to write
    ReadOnly,
    /// Type error -- can't represent the given data in the database
    TypeError,
    /// Database is corrupt -- we got data that shouldn't be there, or didn't get data when we
    /// should have
    Corruption,
    /// Serialization error -- can't serialize data
    SerializationError(serde_json::Error),
    /// Parse error -- failed to load data we stored directly
    ParseError,
    /// Operation would overflow
    Overflow,
    /// Data not found
    NotFoundError,
    /// Data already exists
    ExistsError,
    /// Data corresponds to a non-canonical PoX sortition
    InvalidPoxSortition,
    /// Sqlite3 error
    SqliteError(rusqlite::Error),
    /// I/O error
    IOError(std::io::Error),
    /// MARF index error
    IndexError(MarfError),
    /// Other error
    Other(String),
}

/// Errors of the engine-facing layer, wrapping analysis, parse, execution
/// and chain-state failures around a contract call.
#[derive(Debug)]
pub enum ClarityError {
    Analysis(CheckError),
    Parse(ParseError),
    Interpreter(InterpreterError),
    BadTransaction(String),
    CostError(ExecutionCost, ExecutionCost),
    AbortedByCallback(Option<ClarityValue>, AssetMap, Vec<StacksTransactionEvent>),
}

/// Errors raised while interpreting contract code.
///
/// Equality is fully structural: two runtime errors compare equal only if
/// their stack traces also match, not just their error kinds.
#[derive(Debug, PartialEq)]
pub enum InterpreterError {
    /// UncheckedErrors are errors that *should* be caught by the
    ///   TypeChecker and other check passes. Test executions may
    ///   trigger these errors.
    Unchecked(CheckErrors),
    Interpreter(InterpreterFailureError),
    Runtime(RuntimeErrorType, Option<StackTrace>),
    ShortReturn(ShortReturnType),
}

/// InterpreterFailureErrors are errors that *should never* occur.
/// Test executions may trigger these errors.
#[derive(Debug, PartialEq)]
pub enum InterpreterFailureError {
    BadSender(ClarityValue),
    BadSymbolicRepresentation(String),
    InterpreterError(String),
    UninitializedPersistedVariable,
    FailedToConstructAssetTable,
    FailedToConstructEventBatch,
    SqliteError(IncomparableError<rusqlite::Error>),
    BadFileName,
    FailedToCreateDataDirectory,
    MarfFailure(IncomparableError<MarfError>),
    FailureConstructingTupleWithType,
    FailureConstructingListWithType,
    InsufficientBalance,
    CostContractLoadFailure,
    DBError(IncomparableError<DBError>),
}

/// Errors of the chain-state layer: block and transaction validity, and the
/// lower layers it wraps.
#[derive(Debug)]
pub enum ChainstateError {
    InvalidFee,
    InvalidStacksBlock(String),
    InvalidStacksMicroblock(String, BlockHeaderHash),
    InvalidStacksTransaction(String, bool),
    PostConditionFailed(String),
    NoSuchBlockError,
    InvalidChainstateDB,
    BlockTooBigError,
    BlockCostExceeded,
    NoTransactionsToMine,
    MicroblockStreamTooLongError,
    IncompatibleSpendingConditionError,
    CostOverflowError(ExecutionCost, ExecutionCost, ExecutionCost),
    ClarityError(ClarityError),
    DBError(DBError),
    NetError(NetworkError),
    MARFError(MarfError),
    ReadError(std::io::Error),
    WriteError(std::io::Error),
    MemPoolError(String),
    PoxAlreadyLocked,
    PoxInsufficientBalance,
    PoxNoRewardCycle,
}

/// An analysis failure: what went wrong, the expressions involved, and a
/// diagnostic for the user.
#[derive(Debug, PartialEq)]
pub struct CheckError {
    pub err: CheckErrors,
    pub expressions: Option<Vec<SymbolicExpression>>,
    pub diagnostic: Diagnostic,
}

/// The closed set of static-analysis and cost-accounting failures.
#[derive(Debug, PartialEq)]
pub enum CheckErrors {
    // cost checker errors
    CostOverflow,
    CostBalanceExceeded(ExecutionCost, ExecutionCost),
    MemoryBalanceExceeded(u64, u64),
    CostComputationFailed(String),
    ValueTooLarge,
    ValueOutOfBounds,
    TypeSignatureTooDeep,
    ExpectedName,
    // match errors
    BadMatchOptionSyntax(Box<CheckErrors>),
    BadMatchResponseSyntax(Box<CheckErrors>),
    BadMatchInput(TypeSignature),
    // list typing errors
    UnknownListConstructionFailure,
    ListTypesMustMatch,
    ConstructedListTooLarge,
    // simple type expectation mismatch
    TypeError(TypeSignature, TypeSignature),
    TypeLiteralError(TypeSignature, TypeSignature),
    TypeValueError(TypeSignature, ClarityValue),
    NoSuperType(TypeSignature, TypeSignature),
    InvalidTypeDescription,
    UnknownTypeName(String),
    // union type mismatch
    UnionTypeError(Vec<TypeSignature>, TypeSignature),
    UnionTypeValueError(Vec<TypeSignature>, ClarityValue),
    ExpectedLiteral,
    ExpectedOptionalType(TypeSignature),
    ExpectedResponseType(TypeSignature),
    ExpectedOptionalOrResponseType(TypeSignature),
    ExpectedOptionalValue(ClarityValue),
    ExpectedResponseValue(ClarityValue),
    ExpectedOptionalOrResponseValue(ClarityValue),
    CouldNotDetermineResponseOkType,
    CouldNotDetermineResponseErrType,
    UncheckedIntermediaryResponses,
    CouldNotDetermineMatchTypes,
    // Checker runtime failures
    TypeAlreadyAnnotatedFailure,
    TypeAnnotationExpectedFailure,
    CheckerImplementationFailure,
    // Assets
    BadTokenName,
    DefineFTBadSignature,
    DefineNFTBadSignature,
    NoSuchNFT(String),
    NoSuchFT(String),
    BadTransferSTXArguments,
    BadTransferFTArguments,
    BadTransferNFTArguments,
    BadMintFTArguments,
    BadBurnFTArguments,
    // tuples
    BadTupleFieldName,
    ExpectedTuple(TypeSignature),
    NoSuchTupleField(String, TupleTypeSignature),
    EmptyTuplesNotAllowed,
    BadTupleConstruction,
    TupleExpectsPairs,
    // variables
    NoSuchDataVariable(String),
    // data map
    BadMapName,
    NoSuchMap(String),
    // defines
    DefineFunctionBadSignature,
    BadFunctionName,
    BadMapTypeDefinition,
    PublicFunctionMustReturnResponse(TypeSignature),
    DefineVariableBadSignature,
    ReturnTypesMustMatch(TypeSignature, TypeSignature),
    CircularReference(Vec<String>),
    // contract-call errors
    NoSuchContract(String),
    NoSuchPublicFunction(String, String),
    PublicFunctionNotReadOnly(String, String),
    ContractAlreadyExists(String),
    ContractCallExpectName,
    // get-block-info? errors
    NoSuchBlockInfoProperty(String),
    GetBlockInfoExpectPropertyName,
    NameAlreadyUsed(String),
    // expect a function, or applying a function to a list
    NonFunctionApplication,
    ExpectedListApplication,
    ExpectedSequence(TypeSignature),
    MaxLengthOverflow,
    // let syntax
    BadLetSyntax,
    // generic binding syntax
    BadSyntaxBinding,
    BadSyntaxExpectedListOfPairs,
    MaxContextDepthReached,
    UndefinedFunction(String),
    UndefinedVariable(String),
    // argument counts
    RequiresAtLeastArguments(usize, usize),
    IncorrectArgumentCount(usize, usize),
    IfArmsMustMatch(TypeSignature, TypeSignature),
    MatchArmsMustMatch(TypeSignature, TypeSignature),
    DefaultTypesMustMatch(TypeSignature, TypeSignature),
    TooManyExpressions,
    IllegalOrUnknownFunctionApplication(String),
    UnknownFunction(String),
    // traits
    TraitReferenceUnknown(String),
    TraitMethodUnknown(String, String),
    ExpectedTraitIdentifier,
    ImportTraitBadSignature,
    TraitReferenceNotAllowed,
    BadTraitImplementation(String, String),
    DefineTraitBadSignature,
    UnexpectedTraitOrFieldReference,
    TraitBasedContractCallInReadOnly,
    ContractOfExpectsTrait,
    // strings
    InvalidCharactersDetected,
    // secp256k1 signature
    InvalidSecp65k1Signature,
    WriteAttemptedInReadOnly,
    AtBlockClosureMustBeReadOnly,
}

/// Errors of the Merklized storage index.
#[derive(Debug)]
pub enum MarfError {
    NotOpenedError,
    IOError(std::io::Error),
    SQLError(rusqlite::Error),
    RequestedIdentifierForExtensionTrie,
    NotFoundError,
    BackptrNotFoundError,
    ExistsError,
    BadSeekValue,
    CorruptionError(String),
    BlockHashMapCorruptionError(Option<Box<MarfError>>),
    ReadOnlyError,
    UnconfirmedError,
    NotDirectoryError,
    PartialWriteError,
    InProgressError,
    WriteNotBegunError,
    CursorError(CursorError),
    RestoreMarfBlockError(Box<MarfError>),
    NonMatchingForks([u8; 32], [u8; 32]),
}

/// The closed set of parser failures.
#[derive(Debug, PartialEq)]
pub enum ParseErrors {
    CostOverflow,
    CostBalanceExceeded(ExecutionCost, ExecutionCost),
    MemoryBalanceExceeded(u64, u64),
    TooManyExpressions,
    ExpressionStackDepthTooDeep,
    FailedCapturingInput,
    SeparatorExpected(String),
    SeparatorExpectedAfterColon(String),
    ProgramTooLarge,
    IllegalVariableName(String),
    IllegalContractName(String),
    UnknownQuotedValue(String),
    FailedParsingIntValue(String),
    FailedParsingBuffer(String),
    FailedParsingHexValue(String, String),
    FailedParsingPrincipal(String),
    FailedParsingField(String),
    FailedParsingRemainder(String),
    ClosingParenthesisUnexpected,
    ClosingParenthesisExpected,
    ClosingTupleLiteralUnexpected,
    ClosingTupleLiteralExpected,
    CircularReference(Vec<String>),
    TupleColonExpected(usize),
    TupleCommaExpected(usize),
    TupleItemExpected(usize),
    NameAlreadyUsed(String),
    TraitReferenceNotAllowed,
    ImportTraitBadSignature,
    DefineTraitBadSignature,
    ImplTraitBadSignature,
    TraitReferenceUnknown(String),
    CommaSeparatorUnexpected,
    ColonSeparatorUnexpected,
    InvalidCharactersDetected,
    InvalidEscaping,
    CostComputationFailed(String),
}

/// A parse failure: what went wrong, the expressions involved, and a
/// diagnostic for the user.
#[derive(Debug, PartialEq)]
pub struct ParseError {
    pub err: ParseErrors,
    pub pre_expressions: Option<Vec<PreSymbolicExpression>>,
    pub diagnostic: Diagnostic,
}

/// RuntimeErrors are errors that smart contracts are expected
///   to be able to trigger during execution (e.g., arithmetic errors)
#[derive(Debug, PartialEq)]
pub enum RuntimeErrorType {
    Arithmetic(String),
    ArithmeticOverflow,
    ArithmeticUnderflow,
    SupplyOverflow(u128, u128),
    SupplyUnderflow(u128, u128),
    DivisionByZero,
    // error in parsing types
    ParseError(String),
    // error in parsing the AST
    ASTError(ParseError),
    MaxStackDepthReached,
    MaxContextDepthReached,
    ListDimensionTooHigh,
    BadTypeConstruction,
    ValueTooLarge,
    BadBlockHeight(String),
    TransferNonPositiveAmount,
    NoSuchToken,
    NotImplemented,
    NoSenderInContext,
    NonPositiveTokenSupply,
    JSONParseError(IncomparableError<serde_json::Error>),
    AttemptToFetchInTransientContext,
    BadNameValue(&'static str, String),
    UnknownBlockHeaderHash(BlockHeaderHash),
    BadBlockHash(Vec<u8>),
    UnwrapFailure,
}

/// A value carried out of an execution that ended early.
#[derive(Debug, PartialEq)]
pub enum ShortReturnType {
    ExpectedValue(ClarityValue),
    AssertionFailed(ClarityValue),
}

/// Errors reported to an external client of the node.
#[derive(Debug, Clone, PartialEq)]
pub enum ClientError {
    /// Catch-all
    Message(String),
    /// 404
    NotFound(String),
}

/// The closed set of cost-accounting failures.
#[derive(Debug, PartialEq, Eq)]
pub enum CostErrors {
    CostComputationFailed(String),
    CostOverflow,
    CostBalanceExceeded(ExecutionCost, ExecutionCost),
    MemoryBalanceExceeded(u64, u64),
    CostContractLoadFailure,
}

impl DBError {
    /// Wraps a storage-backend failure from the SQL layer.
    pub fn from_sqlite(e: rusqlite::Error) -> (r: DBError)
        ensures
            r == DBError::SqliteError(e),
    {
        DBError::SqliteError(e)
    }

    /// Wraps a storage-index failure.
    pub fn from_marf(e: MarfError) -> (r: DBError)
        ensures
            r == DBError::IndexError(e),
    {
        DBError::IndexError(e)
    }
}

impl CheckErrors {
    /// Translates a cost-accounting failure into the analysis layer,
    /// keeping every operand unchanged.
    pub fn from_cost(err: CostErrors) -> (r: CheckErrors)
        ensures
            err is CostOverflow ==> r == CheckErrors::CostOverflow,
            err matches CostErrors::CostBalanceExceeded(a, b) ==> r
                == CheckErrors::CostBalanceExceeded(a, b),
            err matches CostErrors::MemoryBalanceExceeded(a, b) ==> r
                == CheckErrors::MemoryBalanceExceeded(a, b),
            err matches CostErrors::CostComputationFailed(s) ==> (r matches
                CheckErrors::CostComputationFailed(s2) && s2 == s),
            err is CostContractLoadFailure ==> (r matches CheckErrors::CostComputationFailed(s2)
                && s2@ == "Failed to load cost contract"@),
    {
        match err {
            CostErrors::CostOverflow => CheckErrors::CostOverflow,
            CostErrors::CostBalanceExceeded(a, b) => CheckErrors::CostBalanceExceeded(a, b),
            CostErrors::MemoryBalanceExceeded(a, b) => CheckErrors::MemoryBalanceExceeded(a, b),
            CostErrors::CostComputationFailed(s) => CheckErrors::CostComputationFailed(s),
            CostErrors::CostContractLoadFailure => {
                CheckErrors::CostComputationFailed("Failed to load cost contract".to_owned())
            },
        }
    }
}

impl CheckError {
    /// An analysis failure with a fresh diagnostic and no expressions
    /// attached yet.
    pub fn new(err: CheckErrors) -> (r: CheckError)
        ensures
            r.err == err,
            r.expressions is None,
            r.diagnostic.level is Error,
            r.diagnostic.spans@.len() == 0,
    {
        let diagnostic = Diagnostic::err(&err);
        CheckError { err, expressions: None, diagnostic }
    }

    pub fn has_expression(&self) -> (r: bool)
        ensures
            r == (self.expressions is Some),
    {
        self.expressions.is_some()
    }

    /// Attaches the expression the failure is about, and points the
    /// diagnostic at its source span.
    pub fn set_expression(&mut self, expr: &SymbolicExpression)
        ensures
            final(self).err == old(self).err,
            final(self).expressions matches Some(v) && v@ == seq![*expr],
            final(self).diagnostic.spans@ == seq![expr.span],
            final(self).diagnostic.level == old(self).diagnostic.level,
            final(self).diagnostic.message == old(self).diagnostic.message,
            final(self).diagnostic.suggestion == old(self).diagnostic.suggestion,
    {
        let mut spans: Vec<Span> = Vec::new();
        spans.push(expr.span);
        self.diagnostic.spans = spans;
        let mut exprs: Vec<SymbolicExpression> = Vec::new();
        exprs.push(*expr);
        proof {
            assert(exprs@ =~= seq![*expr]);
        }
        self.expressions = Some(exprs);
    }

    /// Attaches the expressions the failure is about, and points the
    /// diagnostic at their source spans.
    pub fn set_expressions(&mut self, exprs: &[SymbolicExpression])
        ensures
            final(self).err == old(self).err,
            final(self).expressions matches Some(v) && v@ == exprs@,
            final(self).diagnostic.spans@.len() == exprs@.len(),
            forall|i: int|
                0 <= i < exprs@.len() ==> final(self).diagnostic.spans@[i] == exprs@[i].span,
            final(self).diagnostic.level == old(self).diagnostic.level,
            final(self).diagnostic.message == old(self).diagnostic.message,
            final(self).diagnostic.suggestion == old(self).diagnostic.suggestion,
    {
        let mut spans: Vec<Span> = Vec::new();
        let mut copied: Vec<SymbolicExpression> = Vec::new();
        let mut i: usize = 0;
        while i < exprs.len()
            invariant
                i <= exprs@.len(),
                copied@ =~= exprs@.take(i as int),
                spans@.len() == i,
                forall|j: int| 0 <= j < i ==> spans@[j] == exprs@[j].span,
            decreases exprs@.len() - i,
        {
            spans.push(exprs[i].span);
            copied.push(exprs[i]);
            proof {
                assert(copied@ =~= exprs@.take(i as int + 1));
            }
            i = i + 1;
        }
        proof {
            assert(exprs@.take(exprs@.len() as int) =~= exprs@);
        }
        self.diagnostic.spans = spans;
        self.expressions = Some(copied);
    }

    /// Translates a cost-accounting failure through the analysis layer.
    pub fn from_cost(err: CostErrors) -> (r: CheckError)
        ensures
            err matches CostErrors::CostBalanceExceeded(a, b) ==> r.err
                == CheckErrors::CostBalanceExceeded(a, b),
            err is CostOverflow ==> r.err == CheckErrors::CostOverflow,
            err matches CostErrors::MemoryBalanceExceeded(a, b) ==> r.err
                == CheckErrors::MemoryBalanceExceeded(a, b),
            r.expressions is None,
            r.diagnostic.level is Error,
            r.diagnostic.spans@.len() == 0,
    {
        CheckError::new(CheckErrors::from_cost(err))
    }

    /// Wraps a bare analysis failure.
    pub fn from_check_errors(err: CheckErrors) -> (r: CheckError)
        ensures
            r.err == err,
            r.expressions is None,
            r.diagnostic.level is Error,
            r.diagnostic.spans@.len() == 0,
    {
        CheckError::new(err)
    }
}

impl ClarityError {
    /// Translates an analysis failure into the engine-facing layer.
    ///
    /// Cost-class outcomes route to the cost-error collapse rule: an
    /// overflow or memory-budget outcome collapses to the maximal
    /// cost/budget pair (the memory figures are deliberately discarded),
    /// while a cost-balance outcome keeps both operands unchanged. Every
    /// other failure is wrapped as an analysis error.
    pub fn from_check(e: CheckError) -> (r: ClarityError)
        ensures
            e.err is CostOverflow ==> r == ClarityError::CostError(
                ExecutionCost::spec_max_value(),
                ExecutionCost::spec_max_value(),
            ),
            e.err matches CheckErrors::CostBalanceExceeded(a, b) ==> r == ClarityError::CostError(
                a,
                b,
            ),
            e.err is MemoryBalanceExceeded ==> r == ClarityError::CostError(
                ExecutionCost::spec_max_value(),
                ExecutionCost::spec_max_value(),
            ),
            !(e.err is CostOverflow) && !(e.err is CostBalanceExceeded) && !(e.err
                is MemoryBalanceExceeded) ==> r == ClarityError::Analysis(e),
    {
        match e.err {
            CheckErrors::CostOverflow => {
                ClarityError::CostError(ExecutionCost::max_value(), ExecutionCost::max_value())
            },
            CheckErrors::CostBalanceExceeded(a, b) => ClarityError::CostError(a, b),
            CheckErrors::MemoryBalanceExceeded(_a, _b) => {
                ClarityError::CostError(ExecutionCost::max_value(), ExecutionCost::max_value())
            },
            err => ClarityError::Analysis(
                CheckError { err, expressions: e.expressions, diagnostic: e.diagnostic },
            ),
        }
    }

    /// Translates an execution failure into the engine-facing layer.
    ///
    /// Every unchecked cost-class outcome is routed to the cost-error
    /// collapse rule: a cost-balance outcome keeps both operands unchanged,
    /// while an overflow or memory-budget outcome collapses to the maximal
    /// cost/budget pair (the memory figures are deliberately discarded).
    /// Everything else is wrapped as an interpreter error.
    pub fn from_interpreter(e: InterpreterError) -> (r: ClarityError)
        ensures
            e matches InterpreterError::Unchecked(
                CheckErrors::CostBalanceExceeded(a, b),
            ) ==> r == ClarityError::CostError(a, b),
            e == InterpreterError::Unchecked(CheckErrors::CostOverflow) ==> r
                == ClarityError::CostError(
                ExecutionCost::spec_max_value(),
                ExecutionCost::spec_max_value(),
            ),
            e matches InterpreterError::Unchecked(
                CheckErrors::MemoryBalanceExceeded(a, b),
            ) ==> r == ClarityError::CostError(
                ExecutionCost::spec_max_value(),
                ExecutionCost::spec_max_value(),
            ),
            !(e matches InterpreterError::Unchecked(CheckErrors::CostBalanceExceeded(a2, b2)))
                && e != InterpreterError::Unchecked(CheckErrors::CostOverflow) && !(e matches
                InterpreterError::Unchecked(CheckErrors::MemoryBalanceExceeded(a3, b3))) ==> r
                == ClarityError::Interpreter(e),
    {
        match &e {
            InterpreterError::Unchecked(CheckErrors::CostBalanceExceeded(a, b)) => {
                ClarityError::CostError(*a, *b)
            },
            InterpreterError::Unchecked(CheckErrors::CostOverflow) => {
                ClarityError::CostError(ExecutionCost::max_value(), ExecutionCost::max_value())
            },
            InterpreterError::Unchecked(CheckErrors::MemoryBalanceExceeded(_a, _b)) => {
                ClarityError::CostError(ExecutionCost::max_value(), ExecutionCost::max_value())
            },
            _ => ClarityError::Interpreter(e),
        }
    }

    /// Translates a parse failure into the engine-facing layer, routing
    /// cost-class outcomes to the cost-error collapse rule.
    pub fn from_parse(e: ParseError) -> (r: ClarityError)
        ensures
            e.err is CostOverflow ==> r == ClarityError::CostError(
                ExecutionCost::spec_max_value(),
                ExecutionCost::spec_max_value(),
            ),
            e.err matches ParseErrors::CostBalanceExceeded(a, b) ==> r == ClarityError::CostError(
                a,
                b,
            ),
            e.err is MemoryBalanceExceeded ==> r == ClarityError::CostError(
                ExecutionCost::spec_max_value(),
                ExecutionCost::spec_max_value(),
            ),
            !(e.err is CostOverflow) && !(e.err is CostBalanceExceeded) && !(e.err
                is MemoryBalanceExceeded) ==> r == ClarityError::Parse(e),
    {
        match e.err {
            ParseErrors::CostOverflow => {
                ClarityError::CostError(ExecutionCost::max_value(), ExecutionCost::max_value())
            },
            ParseErrors::CostBalanceExceeded(a, b) => ClarityError::CostError(a, b),
            ParseErrors::MemoryBalanceExceeded(_a, _b) => {
                ClarityError::CostError(ExecutionCost::max_value(), ExecutionCost::max_value())
            },
            err => ClarityError::Parse(
                ParseError { err, pre_expressions: e.pre_expressions, diagnostic: e.diagnostic },
            ),
        }
    }

    /// Translates a chain-state failure back down into the engine-facing
    /// layer around a contract call.
    pub fn from_chainstate(e: ChainstateError) -> (r: ClarityError)
        ensures
            e matches ChainstateError::InvalidStacksTransaction(msg, q) ==> (r matches
                ClarityError::BadTransaction(m) && m == msg),
            e matches ChainstateError::CostOverflowError(before, after, budget) ==> r
                == ClarityError::CostError(after, budget),
            e matches ChainstateError::ClarityError(x) ==> r == x,
            !(e is InvalidStacksTransaction) && !(e is CostOverflowError) && !(e
                is ClarityError) ==> r is BadTransaction,
    {
        match e {
            ChainstateError::InvalidStacksTransaction(msg, _) => ClarityError::BadTransaction(msg),
            ChainstateError::CostOverflowError(_, after, budget) => {
                ClarityError::CostError(after, budget)
            },
            ChainstateError::ClarityError(x) => x,
            x => ClarityError::BadTransaction(chainstate_debug_render(&x)),
        }
    }
}

impl InterpreterError {
    /// Wraps a runtime failure, with no stack trace attached.
    pub fn from_runtime(err: RuntimeErrorType) -> (r: InterpreterError)
        ensures
            r == InterpreterError::Runtime(err, None::<StackTrace>),
    {
        InterpreterError::Runtime(err, None)
    }

    /// Wraps a failure that the checker should have caught.
    pub fn from_check_errors(err: CheckErrors) -> (r: InterpreterError)
        ensures
            r == InterpreterError::Unchecked(err),
    {
        InterpreterError::Unchecked(err)
    }

    /// Translates a cost-accounting failure into the execution layer,
    /// through the analysis layer's operand-preserving mapping.
    pub fn from_cost(err: CostErrors) -> (r: InterpreterError)
        ensures
            r is Unchecked,
            err matches CostErrors::CostBalanceExceeded(a, b) ==> r == InterpreterError::Unchecked(
                CheckErrors::CostBalanceExceeded(a, b),
            ),
            err is CostOverflow ==> r == InterpreterError::Unchecked(CheckErrors::CostOverflow),
            err matches CostErrors::MemoryBalanceExceeded(a, b) ==> r
                == InterpreterError::Unchecked(CheckErrors::MemoryBalanceExceeded(a, b)),
            err matches CostErrors::CostComputationFailed(msg) ==> (r matches
                InterpreterError::Unchecked(CheckErrors::CostComputationFailed(m2)) && m2 == msg),
            err is CostContractLoadFailure ==> (r matches InterpreterError::Unchecked(
                CheckErrors::CostComputationFailed(m2),
            ) && m2@ == "Failed to load cost contract"@),
    {
        InterpreterError::from_check_errors(CheckErrors::from_cost(err))
    }

    /// Wraps a parse failure of the AST as a runtime failure.
    pub fn from_parse(err: ParseError) -> (r: InterpreterError)
        ensures
            r == InterpreterError::Runtime(RuntimeErrorType::ASTError(err), None::<StackTrace>),
    {
        InterpreterError::from_runtime(RuntimeErrorType::ASTError(err))
    }

    /// Wraps a JSON serializer failure as a runtime failure.
    pub fn from_json_error(err: serde_json::Error) -> (r: InterpreterError)
        ensures
            r matches InterpreterError::Runtime(rt, trace) && trace is None && (rt matches
                RuntimeErrorType::JSONParseError(inc) && inc.err == err),
    {
        InterpreterError::from_runtime(
            RuntimeErrorType::JSONParseError(IncomparableError { err }),
        )
    }

    /// Wraps a value carried out of an early return.
    pub fn from_short_return(err: ShortReturnType) -> (r: InterpreterError)
        ensures
            r == InterpreterError::ShortReturn(err),
    {
        InterpreterError::ShortReturn(err)
    }

    /// Wraps a failure that should never occur.
    pub fn from_failure(err: InterpreterFailureError) -> (r: InterpreterError)
        ensures
            r == InterpreterError::Interpreter(err),
    {
        InterpreterError::Interpreter(err)
    }
}

impl MarfError {
    /// Wraps an I/O failure.
    pub fn from_io(err: std::io::Error) -> (r: MarfError)
        ensures
            r == MarfError::IOError(err),
    {
        MarfError::IOError(err)
    }

    /// Classifies a SQL-layer failure: a query that returned no rows is the
    /// distinct not-found outcome, anything else is a SQL failure carrying
    /// the payload unchanged.
    pub fn from_sqlite(err: rusqlite::Error) -> (r: MarfError)
        ensures
            r is NotFoundError || (r matches MarfError::SQLError(inner) && inner == err),
    {
        sqlite_to_marf(err)
    }

    /// Translates a persistence failure into the index layer: a not-found
    /// persistence outcome stays the distinct not-found index outcome, a
    /// SQL failure keeps its payload, and anything else is treated as
    /// corruption.
    pub fn from_db(e: DBError) -> (r: MarfError)
        ensures
            e matches DBError::SqliteError(se) ==> r == MarfError::SQLError(se),
            e is NotFoundError ==> r == MarfError::NotFoundError,
            !(e is SqliteError) && !(e is NotFoundError) ==> (r matches MarfError::CorruptionError(
                m,
            ) && m@ == e.spec_describe()),
    {
        match e {
            DBError::SqliteError(se) => MarfError::SQLError(se),
            DBError::NotFoundError => MarfError::NotFoundError,
            other => MarfError::CorruptionError(other.describe()),
        }
    }
}

/// Relies on rusqlite::Error's variant set: the match tells
/// `QueryReturnedNoRows` apart from every other variant and moves the
/// value, nothing more, so a SQL outcome carries the argument unchanged.
#[verifier::external_body]
fn sqlite_to_marf(err: rusqlite::Error) -> (r: MarfError)
    ensures
        r is NotFoundError || (r matches MarfError::SQLError(inner) && inner == err),
{
    if let rusqlite::Error::QueryReturnedNoRows = err {
        MarfError::NotFoundError
    } else {
        MarfError::SQLError(err)
    }
}

/// Relies on the standard Debug derive: renders the chain-state error's
/// debug form, which is never empty for an enum value.
#[verifier::external_body]
pub(crate) fn chainstate_debug_render(e: &ChainstateError) -> (r: String)
    ensures
        r@.len() > 0,
{
    format!("{:?}", e)
}

impl ChainstateError {
    /// Wraps a storage-index failure.
    pub fn from_marf(e: MarfError) -> (r: ChainstateError)
        ensures
            r == ChainstateError::MARFError(e),
    {
        ChainstateError::MARFError(e)
    }

    /// Wraps an engine-facing failure.
    pub fn from_clarity(e: ClarityError) -> (r: ChainstateError)
        ensures
            r == ChainstateError::ClarityError(e),
    {
        ChainstateError::ClarityError(e)
    }

    /// Wraps a network-layer failure.
    pub fn from_net(e: NetworkError) -> (r: ChainstateError)
        ensures
            r == ChainstateError::NetError(e),
    {
        ChainstateError::NetError(e)
    }

    /// Wraps a SQL-layer failure through the persistence layer.
    pub fn from_sqlite(e: rusqlite::Error) -> (r: ChainstateError)
        ensures
            r == ChainstateError::DBError(DBError::SqliteError(e)),
    {
        ChainstateError::DBError(DBError::SqliteError(e))
    }

    /// Wraps a persistence failure.
    pub fn from_db(e: DBError) -> (r: ChainstateError)
        ensures
            r == ChainstateError::DBError(e),
    {
        ChainstateError::DBError(e)
    }

    /// Wraps an execution failure through the engine-facing layer.
    pub fn from_interpreter(e: InterpreterError) -> (r: ChainstateError)
        ensures
            r == ChainstateError::ClarityError(ClarityError::Interpreter(e)),
    {
        ChainstateError::ClarityError(ClarityError::Interpreter(e))
    }

    /// Translates a cost-accounting failure into the chain-state layer: a
    /// cost-balance outcome keeps its used and budget operands, anything
    /// else reports the context's running total against its limit.
    pub fn from_cost_error(
        err: CostErrors,
        cost_before: ExecutionCost,
        context: &GlobalContext,
    ) -> (r: ChainstateError)
        ensures
            err matches CostErrors::CostBalanceExceeded(used, budget) ==> r
                == ChainstateError::CostOverflowError(cost_before, used, budget),
            !(err is CostBalanceExceeded) ==> r == ChainstateError::CostOverflowError(
                cost_before,
                context.cost_track.total,
                context.cost_track.limit,
            ),
    {
        match err {
            CostErrors::CostBalanceExceeded(used, budget) => {
                ChainstateError::CostOverflowError(cost_before, used, budget)
            },
            _ => {
                let cur_cost = context.cost_track.get_total();
                let budget = context.cost_track.get_limit();
                ChainstateError::CostOverflowError(cost_before, cur_cost, budget)
            },
        }
    }
}

impl ParseError {
    /// A parse failure with a fresh diagnostic and no expressions attached
    /// yet.
    pub fn new(err: ParseErrors) -> (r: ParseError)
        ensures
            r.err == err,
            r.pre_expressions is None,
            r.diagnostic.level is Error,
            r.diagnostic.spans@.len() == 0,
    {
        let diagnostic = Diagnostic::err(&err);
        ParseError { err, pre_expressions: None, diagnostic }
    }

    pub fn has_pre_expression(&self) -> (r: bool)
        ensures
            r == (self.pre_expressions is Some),
    {
        self.pre_expressions.is_some()
    }

    /// Attaches the expression the failure is about, and points the
    /// diagnostic at its source span.
    pub fn set_pre_expression(&mut self, expr: &PreSymbolicExpression)
        ensures
            final(self).err == old(self).err,
            final(self).pre_expressions matches Some(v) && v@ == seq![*expr],
            final(self).diagnostic.spans@ == seq![expr.span],
            final(self).diagnostic.level == old(self).diagnostic.level,
            final(self).diagnostic.message == old(self).diagnostic.message,
            final(self).diagnostic.suggestion == old(self).diagnostic.suggestion,
    {
        let mut spans: Vec<Span> = Vec::new();
        spans.push(expr.span);
        self.diagnostic.spans = spans;
        let mut exprs: Vec<PreSymbolicExpression> = Vec::new();
        exprs.push(*expr);
        proof {
            assert(exprs@ =~= seq![*expr]);
        }
        self.pre_expressions = Some(exprs);
    }

    /// Attaches the expressions the failure is about, and points the
    /// diagnostic at their source spans.
    pub fn set_pre_expressions(&mut self, exprs: Vec<PreSymbolicExpression>)
        ensures
            final(self).err == old(self).err,
            final(self).pre_expressions matches Some(v) && v@ == exprs@,
            final(self).diagnostic.spans@.len() == exprs@.len(),
            forall|i: int|
                0 <= i < exprs@.len() ==> final(self).diagnostic.spans@[i] == exprs@[i].span,
            final(self).diagnostic.level == old(self).diagnostic.level,
            final(self).diagnostic.message == old(self).diagnostic.message,
            final(self).diagnostic.suggestion == old(self).diagnostic.suggestion,
    {
        let mut spans: Vec<Span> = Vec::new();
        let mut i: usize = 0;
        while i < exprs.len()
            invariant
                i <= exprs@.len(),
                spans@.len() == i,
                forall|j: int| 0 <= j < i ==> spans@[j] == exprs@[j].span,
            decreases exprs@.len() - i,
        {
            spans.push(exprs[i].span);
            i = i + 1;
        }
        self.diagnostic.spans = spans;
        self.pre_expressions = Some(exprs);
    }

    /// Wraps a bare parse failure.
    pub fn from_parse_errors(err: ParseErrors) -> (r: ParseError)
        ensures
            r.err == err,
            r.pre_expressions is None,
            r.diagnostic.level is Error,
            r.diagnostic.spans@.len() == 0,
    {
        ParseError::new(err)
    }

    /// Translates a cost-accounting failure into the parse layer, keeping
    /// every operand unchanged.
    pub fn from_cost(err: CostErrors) -> (r: ParseError)
        ensures
            err is CostOverflow ==> r.err == ParseErrors::CostOverflow,
            err matches CostErrors::CostBalanceExceeded(a, b) ==> r.err
                == ParseErrors::CostBalanceExceeded(a, b),
            err matches CostErrors::MemoryBalanceExceeded(a, b) ==> r.err
                == ParseErrors::MemoryBalanceExceeded(a, b),
            err matches CostErrors::CostComputationFailed(s) ==> (r.err matches
                ParseErrors::CostComputationFailed(s2) && s2 == s),
            err is CostContractLoadFailure ==> (r.err matches ParseErrors::CostComputationFailed(
                s2,
            ) && s2@ == "Failed to load cost contract"@),
            r.pre_expressions is None,
            r.diagnostic.level is Error,
            r.diagnostic.spans@.len() == 0,
    {
        match err {
            CostErrors::CostOverflow => ParseError::new(ParseErrors::CostOverflow),
            CostErrors::CostBalanceExceeded(a, b) => {
                ParseError::new(ParseErrors::CostBalanceExceeded(a, b))
            },
            CostErrors::MemoryBalanceExceeded(a, b) => {
                ParseError::new(ParseErrors::MemoryBalanceExceeded(a, b))
            },
            CostErrors::CostComputationFailed(s) => {
                ParseError::new(ParseErrors::CostComputationFailed(s))
            },
            CostErrors::CostContractLoadFailure => {
                ParseError::new(
                    ParseErrors::CostComputationFailed(
                        "Failed to load cost contract".to_owned(),
                    ),
                )
            },
        }
    }
}

impl ShortReturnType {
    /// The value an early return carried.
    pub fn into_value(self) -> (r: ClarityValue)
        ensures
            self matches ShortReturnType::ExpectedValue(v) ==> r == v,
            self matches ShortReturnType::AssertionFailed(v) ==> r == v,
    {
        match self {
            ShortReturnType::ExpectedValue(v) => v,
            ShortReturnType::AssertionFailed(v) => v,
        }
    }
}

impl NetworkError {
    /// Wraps a persistence failure.
    pub fn from_db(e: DBError) -> (r: NetworkError)
        ensures
            r == NetworkError::DBError(e),
    {
        NetworkError::DBError(e)
    }

    /// Wraps a SQL-layer failure through the persistence layer.
    pub fn from_sqlite(e: rusqlite::Error) -> (r: NetworkError)
        ensures
            r == NetworkError::DBError(DBError::SqliteError(e)),
    {
        NetworkError::DBError(DBError::SqliteError(e))
    }

    /// Translates a chain-state failure into the network layer.
    ///
    /// The nested engine, persistence, index, network and I/O failures keep
    /// their payloads; a handful of validity failures keep their text under
    /// a fixed prefix; every other variant collapses into the single
    /// generic chain-state variant carrying only a formatted description —
    /// detail is intentionally discarded so the network layer's error set
    /// stays small and closed.
    pub fn from_chainstate(e: ChainstateError) -> (r: NetworkError)
        ensures
            e matches ChainstateError::InvalidStacksBlock(msg) ==> (r matches
                NetworkError::ChainstateError(m) && m@ == "Invalid stacks block: "@ + msg@),
            e matches ChainstateError::InvalidStacksMicroblock(msg, hash) ==> (r matches
                NetworkError::ChainstateError(m) && m@ == "Invalid stacks microblock "@ + spec_hex(
                    hash.0@,
                ) + ": "@ + msg@),
            e matches ChainstateError::InvalidStacksTransaction(msg, q) ==> (r matches
                NetworkError::ChainstateError(m) && m@ == "Invalid stacks transaction: "@
                + msg@),
            e matches ChainstateError::PostConditionFailed(msg) ==> (r matches
                NetworkError::ChainstateError(m) && m@ == "Postcondition failed: "@ + msg@),
            e matches ChainstateError::ClarityError(inner) ==> r == NetworkError::ClarityError(
                inner,
            ),
            e matches ChainstateError::DBError(inner) ==> r == NetworkError::DBError(inner),
            e matches ChainstateError::NetError(inner) ==> r == inner,
            e matches ChainstateError::MARFError(inner) ==> r == NetworkError::MARFError(inner),
            e matches ChainstateError::ReadError(inner) ==> r == NetworkError::ReadError(inner),
            e matches ChainstateError::WriteError(inner) ==> r == NetworkError::WriteError(inner),
            !(e is InvalidStacksBlock) && !(e is InvalidStacksMicroblock) && !(e
                is InvalidStacksTransaction) && !(e is PostConditionFailed) && !(e
                is ClarityError) && !(e is DBError) && !(e is NetError) && !(e is MARFError) && !(e
                is ReadError) && !(e is WriteError) ==> r is ChainstateError,
    {
        match e {
            ChainstateError::InvalidStacksBlock(s) => {
                let mut m = "Invalid stacks block: ".to_owned();
                m.append(s.as_str());
                NetworkError::ChainstateError(m)
            },
            ChainstateError::InvalidStacksMicroblock(msg, hash) => {
                let mut m = "Invalid stacks microblock ".to_owned();
                m.append(hex_bytes32(&hash.0).as_str());
                m.append(": ");
                m.append(msg.as_str());
                proof {
                    assert(m@ =~= "Invalid stacks microblock "@ + spec_hex(hash.0@) + ": "@
                        + msg@);
                }
                NetworkError::ChainstateError(m)
            },
            ChainstateError::InvalidStacksTransaction(s, _) => {
                let mut m = "Invalid stacks transaction: ".to_owned();
                m.append(s.as_str());
                NetworkError::ChainstateError(m)
            },
            ChainstateError::PostConditionFailed(s) => {
                let mut m = "Postcondition failed: ".to_owned();
                m.append(s.as_str());
                NetworkError::ChainstateError(m)
            },
            ChainstateError::ClarityError(inner) => NetworkError::ClarityError(inner),
            ChainstateError::DBError(inner) => NetworkError::DBError(inner),
            ChainstateError::NetError(inner) => inner,
            ChainstateError::MARFError(inner) => NetworkError::MARFError(inner),
            ChainstateError::ReadError(inner) => NetworkError::ReadError(inner),
            ChainstateError::WriteError(inner) => NetworkError::WriteError(inner),
            other => {
                let mut m = "Stacks chainstate error: ".to_owned();
                m.append(chainstate_debug_render(&other).as_str());
                NetworkError::ChainstateError(m)
            },
        }
    }
}

/// The quoted, comma-separated rendering of a union's expected types, the
/// last one set off with "or".
fn formatted_expected_types(expected_types: &Vec<TypeSignature>) -> (r: String)
    requires
        expected_types@.len() >= 1,
    ensures
        r@.len() > 0,
{
    proof {
        reveal_strlit("'");
    }
    let mut expected_types_joined = "'".to_owned();
    expected_types_joined.append(expected_types[0].repr.as_str());
    expected_types_joined.append("'");
    if expected_types.len() > 2 {
        let mut i: usize = 1;
        while i < expected_types.len() - 1
            invariant
                expected_types@.len() >= 1,
            decreases expected_types@.len() - i,
        {
            expected_types_joined.append(", '");
            expected_types_joined.append(expected_types[i].repr.as_str());
            expected_types_joined.append("'");
            i = i + 1;
        }
    }
    expected_types_joined.append(" or '");
    expected_types_joined.append(expected_types[expected_types.len() - 1].repr.as_str());
    expected_types_joined.append("'");
    expected_types_joined
}

/// Prefix, middle and suffix around two rendered payloads.
fn two_part_message(pre: &str, a: &str, mid: &str, b: &str, post: &str) -> (r: String)
    ensures
        r@ == pre@ + a@ + mid@ + b@ + post@,
{
    let mut m = pre.to_owned();
    m.append(a);
    m.append(mid);
    m.append(b);
    m.append(post);
    proof {
        assert(m@ =~= pre@ + a@ + mid@ + b@ + post@);
    }
    m
}

/// Prefix and suffix around one rendered payload.
fn one_part_message(pre: &str, a: &str, post: &str) -> (r: String)
    ensures
        r@ == pre@ + a@ + post@,
{
    let mut m = pre.to_owned();
    m.append(a);
    m.append(post);
    proof {
        assert(m@ =~= pre@ + a@ + post@);
    }
    m
}

/// The diagnostic message of an analysis failure. Variants with a fixed
/// literal text return exactly it; the payload-rendering texts are
/// free-form and not part of any stability contract.
fn check_errors_message(e: &CheckErrors) -> (r: String)
    ensures
        e.fixed_message() matches Some(t) ==> r@ == t,
    decreases *e,
{
    match e {
        CheckErrors::ExpectedLiteral => "expected a literal argument".to_owned(),
        CheckErrors::BadMatchOptionSyntax(source) => one_part_message(
            "match on a optional type uses the following syntax: (match input some-name if-some-expression if-none-expression). Caused by: ",
            check_errors_message(source).as_str(),
            "",
        ),
        CheckErrors::BadMatchResponseSyntax(source) => one_part_message(
            "match on a result type uses the following syntax: (match input ok-name if-ok-expression err-name if-err-expression). Caused by: ",
            check_errors_message(source).as_str(),
            "",
        ),
        CheckErrors::BadMatchInput(t) => one_part_message(
            "match requires an input of either a response or optional, found input: '",
            t.repr.as_str(),
            "'",
        ),
        CheckErrors::TypeAnnotationExpectedFailure => "analysis expected type to already be annotated for expression".to_owned(),
        CheckErrors::CostOverflow => "contract execution cost overflowed cost counter".to_owned(),
        CheckErrors::CostBalanceExceeded(a, b) => two_part_message(
            "contract execution cost exceeded budget: ",
            a.describe().as_str(),
            " > ",
            b.describe().as_str(),
            "",
        ),
        CheckErrors::MemoryBalanceExceeded(a, b) => two_part_message(
            "contract execution cost exceeded memory budget: ",
            crate::text::dec_u64(*a).as_str(),
            " > ",
            crate::text::dec_u64(*b).as_str(),
            "",
        ),
        CheckErrors::InvalidTypeDescription => "supplied type description is invalid".to_owned(),
        CheckErrors::EmptyTuplesNotAllowed => "tuple types may not be empty".to_owned(),
        CheckErrors::BadSyntaxExpectedListOfPairs => "bad syntax: function expects a list of pairs to bind names, e.g., ((name-0 a) (name-1 b) ...)".to_owned(),
        CheckErrors::UnknownTypeName(name) => one_part_message("failed to parse type: '", name.as_str(), "'"),
        CheckErrors::ValueTooLarge => "created a type which was greater than maximum allowed value size".to_owned(),
        CheckErrors::ValueOutOfBounds => "created a type which value size was out of defined bounds".to_owned(),
        CheckErrors::TypeSignatureTooDeep => "created a type which was deeper than maximum allowed type depth".to_owned(),
        CheckErrors::ExpectedName => "expected a name argument to this function".to_owned(),
        CheckErrors::NoSuperType(a, b) => two_part_message(
            "unable to create a supertype for the two types: '",
            a.repr.as_str(),
            "' and '",
            b.repr.as_str(),
            "'",
        ),
        CheckErrors::UnknownListConstructionFailure => "invalid syntax for list definition".to_owned(),
        CheckErrors::ListTypesMustMatch => "expecting elements of same type in a list".to_owned(),
        CheckErrors::ConstructedListTooLarge => "reached limit of elements in a list".to_owned(),
        CheckErrors::TypeError(expected_type, found_type) => two_part_message(
            "expecting expression of type '",
            expected_type.repr.as_str(),
            "', found '",
            found_type.repr.as_str(),
            "'",
        ),
        CheckErrors::TypeLiteralError(expected_type, found_type) => two_part_message(
            "expecting a literal of type '",
            expected_type.repr.as_str(),
            "', found '",
            found_type.repr.as_str(),
            "'",
        ),
        CheckErrors::TypeValueError(expected_type, found_value) => two_part_message(
            "expecting expression of type '",
            expected_type.repr.as_str(),
            "', found '",
            found_value.describe().as_str(),
            "'",
        ),
        CheckErrors::UnionTypeError(expected_types, found_type) => {
            let joined = if expected_types.len() >= 1 {
                formatted_expected_types(expected_types)
            } else {
                String::new()
            };
            two_part_message(
                "expecting expression of type ",
                joined.as_str(),
                ", found '",
                found_type.repr.as_str(),
                "'",
            )
        },
        CheckErrors::UnionTypeValueError(expected_types, found_value) => {
            let joined = if expected_types.len() >= 1 {
                formatted_expected_types(expected_types)
            } else {
                String::new()
            };
            two_part_message(
                "expecting expression of type ",
                joined.as_str(),
                ", found '",
                found_value.describe().as_str(),
                "'",
            )
        },
        CheckErrors::ExpectedOptionalType(found_type) => one_part_message(
            "expecting expression of type 'optional', found '",
            found_type.repr.as_str(),
            "'",
        ),
        CheckErrors::ExpectedOptionalOrResponseType(found_type) => one_part_message(
            "expecting expression of type 'optional' or 'response', found '",
            found_type.repr.as_str(),
            "'",
        ),
        CheckErrors::ExpectedOptionalOrResponseValue(found_value) => one_part_message(
            "expecting expression of type 'optional' or 'response', found '",
            found_value.describe().as_str(),
            "'",
        ),
        CheckErrors::ExpectedResponseType(found_type) => one_part_message(
            "expecting expression of type 'response', found '",
            found_type.repr.as_str(),
            "'",
        ),
        CheckErrors::ExpectedOptionalValue(found_value) => one_part_message(
            "expecting expression of type 'optional', found '",
            found_value.describe().as_str(),
            "'",
        ),
        CheckErrors::ExpectedResponseValue(found_value) => one_part_message(
            "expecting expression of type 'response', found '",
            found_value.describe().as_str(),
            "'",
        ),
        CheckErrors::CouldNotDetermineResponseOkType => "attempted to obtain 'ok' value from response, but 'ok' type is indeterminate".to_owned(),
        CheckErrors::CouldNotDetermineResponseErrType => "attempted to obtain 'err' value from response, but 'err' type is indeterminate".to_owned(),
        CheckErrors::CouldNotDetermineMatchTypes => "attempted to match on an (optional) or (response) type where either the some, ok, or err type is indeterminate. you may wish to use unwrap-panic or unwrap-err-panic instead.".to_owned(),
        CheckErrors::BadTupleFieldName => "invalid tuple field name".to_owned(),
        CheckErrors::ExpectedTuple(type_signature) => one_part_message(
            "expecting tuple, found '",
            type_signature.repr.as_str(),
            "'",
        ),
        CheckErrors::NoSuchTupleField(field_name, tuple_signature) => two_part_message(
            "cannot find field '",
            field_name.as_str(),
            "' in tuple '",
            tuple_signature.repr.as_str(),
            "'",
        ),
        CheckErrors::BadTupleConstruction => "invalid tuple syntax, expecting list of pair".to_owned(),
        CheckErrors::TupleExpectsPairs => "invalid tuple syntax, expecting pair".to_owned(),
        CheckErrors::NoSuchDataVariable(var_name) => one_part_message(
            "use of unresolved persisted variable '",
            var_name.as_str(),
            "'",
        ),
        CheckErrors::BadTransferSTXArguments => "STX transfer expects an int amount, from principal, to principal".to_owned(),
        CheckErrors::BadTransferFTArguments => "transfer expects an int amount, from principal, to principal".to_owned(),
        CheckErrors::BadTransferNFTArguments => "transfer expects an asset, from principal, to principal".to_owned(),
        CheckErrors::BadMintFTArguments => "mint expects a uint amount and from principal".to_owned(),
        CheckErrors::BadBurnFTArguments => "burn expects a uint amount and from principal".to_owned(),
        CheckErrors::BadMapName => "invalid map name".to_owned(),
        CheckErrors::NoSuchMap(map_name) => one_part_message(
            "use of unresolved map '",
            map_name.as_str(),
            "'",
        ),
        CheckErrors::DefineFunctionBadSignature => "invalid function definition".to_owned(),
        CheckErrors::BadFunctionName => "invalid function name".to_owned(),
        CheckErrors::BadMapTypeDefinition => "invalid map definition".to_owned(),
        CheckErrors::PublicFunctionMustReturnResponse(found_type) => one_part_message(
            "public functions must return an expression of type 'response', found '",
            found_type.repr.as_str(),
            "'",
        ),
        CheckErrors::DefineVariableBadSignature => "invalid variable definition".to_owned(),
        CheckErrors::ReturnTypesMustMatch(type_1, type_2) => two_part_message(
            "detected two execution paths, returning two different expression types (got '",
            type_1.repr.as_str(),
            "' and '",
            type_2.repr.as_str(),
            "')",
        ),
        CheckErrors::NoSuchContract(contract_identifier) => one_part_message(
            "use of unresolved contract '",
            contract_identifier.as_str(),
            "'",
        ),
        CheckErrors::NoSuchPublicFunction(contract_identifier, function_name) => two_part_message(
            "contract '",
            contract_identifier.as_str(),
            "' has no public function '",
            function_name.as_str(),
            "'",
        ),
        CheckErrors::PublicFunctionNotReadOnly(contract_identifier, function_name) => two_part_message(
            "function '",
            function_name.as_str(),
            "' in '",
            contract_identifier.as_str(),
            "' is not read-only",
        ),
        CheckErrors::ContractAlreadyExists(contract_identifier) => one_part_message(
            "contract name '",
            contract_identifier.as_str(),
            "' conflicts with existing contract",
        ),
        CheckErrors::ContractCallExpectName => "missing contract name for call".to_owned(),
        CheckErrors::NoSuchBlockInfoProperty(property_name) => one_part_message(
            "use of block unknown property '",
            property_name.as_str(),
            "'",
        ),
        CheckErrors::GetBlockInfoExpectPropertyName => "missing property name for block info introspection".to_owned(),
        CheckErrors::NameAlreadyUsed(name) => one_part_message(
            "defining '",
            name.as_str(),
            "' conflicts with previous value",
        ),
        CheckErrors::NonFunctionApplication => "expecting expression of type function".to_owned(),
        CheckErrors::ExpectedListApplication => "expecting expression of type list".to_owned(),
        CheckErrors::ExpectedSequence(found_type) => one_part_message(
            "expecting expression of type 'list', 'buff', 'string-ascii' or 'string-utf8' - found '",
            found_type.repr.as_str(),
            "'",
        ),
        CheckErrors::MaxLengthOverflow => one_part_message(
            "expecting a value <= ",
            crate::text::dec_u128(u32::MAX as u128).as_str(),
            "",
        ),
        CheckErrors::BadLetSyntax => "invalid syntax of 'let'".to_owned(),
        CheckErrors::CircularReference(function_names) => one_part_message(
            "detected interdependent functions (",
            crate::text::join_comma(function_names).as_str(),
            ")",
        ),
        CheckErrors::BadSyntaxBinding => "invalid syntax binding".to_owned(),
        CheckErrors::MaxContextDepthReached => "reached depth limit".to_owned(),
        CheckErrors::UndefinedVariable(var_name) => one_part_message(
            "use of unresolved variable '",
            var_name.as_str(),
            "'",
        ),
        CheckErrors::UndefinedFunction(var_name) => one_part_message(
            "use of unresolved function '",
            var_name.as_str(),
            "'",
        ),
        CheckErrors::RequiresAtLeastArguments(expected, found) => two_part_message(
            "expecting >= ",
            crate::text::dec_usize(*expected).as_str(),
            " argument, got ",
            crate::text::dec_usize(*found).as_str(),
            "",
        ),
        CheckErrors::IncorrectArgumentCount(expected_count, found_count) => two_part_message(
            "expecting ",
            crate::text::dec_usize(*expected_count).as_str(),
            " arguments, got ",
            crate::text::dec_usize(*found_count).as_str(),
            "",
        ),
        CheckErrors::IfArmsMustMatch(type_1, type_2) => two_part_message(
            "expression types returned by the arms of 'if' must match (got '",
            type_1.repr.as_str(),
            "' and '",
            type_2.repr.as_str(),
            "')",
        ),
        CheckErrors::MatchArmsMustMatch(type_1, type_2) => two_part_message(
            "expression types returned by the arms of 'match' must match (got '",
            type_1.repr.as_str(),
            "' and '",
            type_2.repr.as_str(),
            "')",
        ),
        CheckErrors::DefaultTypesMustMatch(type_1, type_2) => two_part_message(
            "expression types passed in 'default-to' must match (got '",
            type_1.repr.as_str(),
            "' and '",
            type_2.repr.as_str(),
            "')",
        ),
        CheckErrors::TooManyExpressions => "reached limit of expressions".to_owned(),
        CheckErrors::IllegalOrUnknownFunctionApplication(function_name) => one_part_message(
            "use of illegal / unresolved function '",
            function_name.as_str(),
            "",
        ),
        CheckErrors::UnknownFunction(function_name) => one_part_message(
            "use of unresolved function '",
            function_name.as_str(),
            "'",
        ),
        CheckErrors::TraitBasedContractCallInReadOnly => "use of trait based contract calls are not allowed in read-only context".to_owned(),
        CheckErrors::WriteAttemptedInReadOnly => "expecting read-only statements, detected a writing operation".to_owned(),
        CheckErrors::AtBlockClosureMustBeReadOnly => "(at-block ...) closures expect read-only statements, but detected a writing operation".to_owned(),
        CheckErrors::BadTokenName => "expecting an token name as an argument".to_owned(),
        CheckErrors::DefineFTBadSignature => "(define-token ...) expects a token name as an argument".to_owned(),
        CheckErrors::DefineNFTBadSignature => "(define-asset ...) expects an asset name and an asset identifier type signature as arguments".to_owned(),
        CheckErrors::NoSuchNFT(asset_name) => one_part_message(
            "tried to use asset function with a undefined asset ('",
            asset_name.as_str(),
            "')",
        ),
        CheckErrors::NoSuchFT(asset_name) => one_part_message(
            "tried to use token function with a undefined token ('",
            asset_name.as_str(),
            "')",
        ),
        CheckErrors::TraitReferenceUnknown(trait_name) => one_part_message(
            "use of undeclared trait <",
            trait_name.as_str(),
            ">",
        ),
        CheckErrors::TraitMethodUnknown(trait_name, func_name) => two_part_message(
            "method '",
            func_name.as_str(),
            "' unspecified in trait <",
            trait_name.as_str(),
            ">",
        ),
        CheckErrors::ImportTraitBadSignature => "(use-trait ...) expects a trait name and a trait identifier".to_owned(),
        CheckErrors::BadTraitImplementation(trait_name, func_name) => two_part_message(
            "invalid signature for method '",
            func_name.as_str(),
            "' regarding trait's specification <",
            trait_name.as_str(),
            ">",
        ),
        CheckErrors::ExpectedTraitIdentifier => "expecting expression of type trait identifier".to_owned(),
        CheckErrors::UnexpectedTraitOrFieldReference => "unexpected use of trait reference or field".to_owned(),
        CheckErrors::DefineTraitBadSignature => "invalid trait definition".to_owned(),
        CheckErrors::TraitReferenceNotAllowed => "trait references can not be stored".to_owned(),
        CheckErrors::ContractOfExpectsTrait => "trait reference expected".to_owned(),
        CheckErrors::InvalidCharactersDetected => "invalid characters detected".to_owned(),
        CheckErrors::InvalidSecp65k1Signature => "invalid seckp256k1 signature".to_owned(),
        CheckErrors::TypeAlreadyAnnotatedFailure | CheckErrors::CheckerImplementationFailure => {
            "internal error - please file an issue on github.com/blockstack/blockstack-core".to_owned()
        },
        CheckErrors::UncheckedIntermediaryResponses => "intermediary responses in consecutive statements must be checked".to_owned(),
        CheckErrors::CostComputationFailed(s) => one_part_message(
            "contract cost computation failed: ",
            s.as_str(),
            "",
        ),
    }
}

impl DiagnosableError for CheckErrors {
    open spec fn fixed_message(&self) -> Option<Seq<char>> {
        match self {
            CheckErrors::ExpectedLiteral => Some("expected a literal argument"@),
            CheckErrors::TypeAnnotationExpectedFailure => Some("analysis expected type to already be annotated for expression"@),
            CheckErrors::CostOverflow => Some("contract execution cost overflowed cost counter"@),
            CheckErrors::InvalidTypeDescription => Some("supplied type description is invalid"@),
            CheckErrors::EmptyTuplesNotAllowed => Some("tuple types may not be empty"@),
            CheckErrors::BadSyntaxExpectedListOfPairs => Some("bad syntax: function expects a list of pairs to bind names, e.g., ((name-0 a) (name-1 b) ...)"@),
            CheckErrors::ValueTooLarge => Some("created a type which was greater than maximum allowed value size"@),
            CheckErrors::ValueOutOfBounds => Some("created a type which value size was out of defined bounds"@),
            CheckErrors::TypeSignatureTooDeep => Some("created a type which was deeper than maximum allowed type depth"@),
            CheckErrors::ExpectedName => Some("expected a name argument to this function"@),
            CheckErrors::UnknownListConstructionFailure => Some("invalid syntax for list definition"@),
            CheckErrors::ListTypesMustMatch => Some("expecting elements of same type in a list"@),
            CheckErrors::ConstructedListTooLarge => Some("reached limit of elements in a list"@),
            CheckErrors::CouldNotDetermineResponseOkType => Some("attempted to obtain 'ok' value from response, but 'ok' type is indeterminate"@),
            CheckErrors::CouldNotDetermineResponseErrType => Some("attempted to obtain 'err' value from response, but 'err' type is indeterminate"@),
            CheckErrors::CouldNotDetermineMatchTypes => Some("attempted to match on an (optional) or (response) type where either the some, ok, or err type is indeterminate. you may wish to use unwrap-panic or unwrap-err-panic instead."@),
            CheckErrors::BadTupleFieldName => Some("invalid tuple field name"@),
            CheckErrors::BadTupleConstruction => Some("invalid tuple syntax, expecting list of pair"@),
            CheckErrors::TupleExpectsPairs => Some("invalid tuple syntax, expecting pair"@),
            CheckErrors::BadTransferSTXArguments => Some("STX transfer expects an int amount, from principal, to principal"@),
            CheckErrors::BadTransferFTArguments => Some("transfer expects an int amount, from principal, to principal"@),
            CheckErrors::BadTransferNFTArguments => Some("transfer expects an asset, from principal, to principal"@),
            CheckErrors::BadMintFTArguments => Some("mint expects a uint amount and from principal"@),
            CheckErrors::BadBurnFTArguments => Some("burn expects a uint amount and from principal"@),
            CheckErrors::BadMapName => Some("invalid map name"@),
            CheckErrors::DefineFunctionBadSignature => Some("invalid function definition"@),
            CheckErrors::BadFunctionName => Some("invalid function name"@),
            CheckErrors::BadMapTypeDefinition => Some("invalid map definition"@),
            CheckErrors::DefineVariableBadSignature => Some("invalid variable definition"@),
            CheckErrors::ContractCallExpectName => Some("missing contract name for call"@),
            CheckErrors::GetBlockInfoExpectPropertyName => Some("missing property name for block info introspection"@),
            CheckErrors::NonFunctionApplication => Some("expecting expression of type function"@),
            CheckErrors::ExpectedListApplication => Some("expecting expression of type list"@),
            CheckErrors::BadLetSyntax => Some("invalid syntax of 'let'"@),
            CheckErrors::BadSyntaxBinding => Some("invalid syntax binding"@),
            CheckErrors::MaxContextDepthReached => Some("reached depth limit"@),
            CheckErrors::TooManyExpressions => Some("reached limit of expressions"@),
            CheckErrors::TraitBasedContractCallInReadOnly => Some("use of trait based contract calls are not allowed in read-only context"@),
            CheckErrors::WriteAttemptedInReadOnly => Some("expecting read-only statements, detected a writing operation"@),
            CheckErrors::AtBlockClosureMustBeReadOnly => Some("(at-block ...) closures expect read-only statements, but detected a writing operation"@),
            CheckErrors::BadTokenName => Some("expecting an token name as an argument"@),
            CheckErrors::DefineFTBadSignature => Some("(define-token ...) expects a token name as an argument"@),
            CheckErrors::DefineNFTBadSignature => Some("(define-asset ...) expects an asset name and an asset identifier type signature as arguments"@),
            CheckErrors::ImportTraitBadSignature => Some("(use-trait ...) expects a trait name and a trait identifier"@),
            CheckErrors::ExpectedTraitIdentifier => Some("expecting expression of type trait identifier"@),
            CheckErrors::UnexpectedTraitOrFieldReference => Some("unexpected use of trait reference or field"@),
            CheckErrors::DefineTraitBadSignature => Some("invalid trait definition"@),
            CheckErrors::TraitReferenceNotAllowed => Some("trait references can not be stored"@),
            CheckErrors::ContractOfExpectsTrait => Some("trait reference expected"@),
            CheckErrors::InvalidCharactersDetected => Some("invalid characters detected"@),
            CheckErrors::InvalidSecp65k1Signature => Some("invalid seckp256k1 signature"@),
            CheckErrors::UncheckedIntermediaryResponses => Some("intermediary responses in consecutive statements must be checked"@),
            CheckErrors::TypeAlreadyAnnotatedFailure => Some(
                "internal error - please file an issue on github.com/blockstack/blockstack-core"@,
            ),
            CheckErrors::CheckerImplementationFailure => Some(
                "internal error - please file an issue on github.com/blockstack/blockstack-core"@,
            ),
            _ => None,
        }
    }

    open spec fn gives_suggestion(&self) -> bool {
        match self {
            CheckErrors::BadSyntaxBinding => true,
            CheckErrors::BadLetSyntax => true,
            CheckErrors::TraitReferenceUnknown(..) => true,
            CheckErrors::NoSuchBlockInfoProperty(..) => true,
            _ => false,
        }
    }

    fn message(&self) -> (r: String) {
        check_errors_message(self)
    }

    fn suggestion(&self) -> (r: Option<String>) {
        match self {
            CheckErrors::BadSyntaxBinding => {
                Some("binding syntax example: ((supply int) (ttl int))".to_owned())
            },
            CheckErrors::BadLetSyntax => {
                Some(
                    "'let' syntax example: (let ((supply 1000) (ttl 60)) <next-expression>)".to_owned(),
                )
            },
            CheckErrors::TraitReferenceUnknown(_) => {
                Some(
                    "traits should be either defined, with define-trait, or imported, with use-trait.".to_owned(),
                )
            },
            CheckErrors::NoSuchBlockInfoProperty(_) => {
                Some(
                    "properties available: time, header-hash, burnchain-header-hash, vrf-seed".to_owned(),
                )
            },
            _ => None,
        }
    }
}

impl DiagnosableError for ParseErrors {
    open spec fn fixed_message(&self) -> Option<Seq<char>> {
        match self {
            ParseErrors::CostOverflow => Some("Used up cost budget during the parse"@),
            ParseErrors::TooManyExpressions => Some("Too many expressions"@),
            ParseErrors::FailedCapturingInput => Some("Failed to capture value from input"@),
            ParseErrors::ProgramTooLarge => Some("Program too large to parse"@),
            ParseErrors::ClosingParenthesisUnexpected => Some("Tried to close list which isn't open."@),
            ParseErrors::ClosingParenthesisExpected => Some("List expressions (..) left opened."@),
            ParseErrors::ClosingTupleLiteralUnexpected => Some("Tried to close tuple literal which isn't open."@),
            ParseErrors::ClosingTupleLiteralExpected => Some("Tuple literal {..} left opened."@),
            ParseErrors::ColonSeparatorUnexpected => Some("Misplaced colon."@),
            ParseErrors::CommaSeparatorUnexpected => Some("Misplaced comma."@),
            ParseErrors::ImportTraitBadSignature => Some("(use-trait ...) expects a trait name and a trait identifier"@),
            ParseErrors::DefineTraitBadSignature => Some("(define-trait ...) expects a trait name and a trait definition"@),
            ParseErrors::ImplTraitBadSignature => Some("(impl-trait ...) expects a trait identifier"@),
            ParseErrors::TraitReferenceNotAllowed => Some("trait references can not be stored"@),
            ParseErrors::InvalidCharactersDetected => Some("invalid characters detected"@),
            ParseErrors::InvalidEscaping => Some("invalid escaping detected in string"@),
            _ => None,
        }
    }

    open spec fn gives_suggestion(&self) -> bool {
        false
    }

    fn message(&self) -> (r: String) {
        match self {
            ParseErrors::CostOverflow => "Used up cost budget during the parse".to_owned(),
            ParseErrors::CostBalanceExceeded(bal, used) => two_part_message(
                "Used up cost budget during the parse: ",
                bal.describe().as_str(),
                " balance, ",
                used.describe().as_str(),
                " used",
            ),
            ParseErrors::MemoryBalanceExceeded(bal, used) => two_part_message(
                "Used up memory budget during the parse: ",
                crate::text::dec_u64(*bal).as_str(),
                " balance, ",
                crate::text::dec_u64(*used).as_str(),
                " used",
            ),
            ParseErrors::TooManyExpressions => "Too many expressions".to_owned(),
            ParseErrors::FailedCapturingInput => "Failed to capture value from input".to_owned(),
            ParseErrors::SeparatorExpected(found) => one_part_message(
                "Expected whitespace or a close parens. Found: '",
                found.as_str(),
                "'",
            ),
            ParseErrors::SeparatorExpectedAfterColon(found) => one_part_message(
                "Whitespace expected after colon (:), Found: '",
                found.as_str(),
                "'",
            ),
            ParseErrors::ProgramTooLarge => "Program too large to parse".to_owned(),
            ParseErrors::IllegalContractName(contract_name) => one_part_message(
                "Illegal contract name: '",
                contract_name.as_str(),
                "'",
            ),
            ParseErrors::IllegalVariableName(var_name) => one_part_message(
                "Illegal variable name: '",
                var_name.as_str(),
                "'",
            ),
            ParseErrors::UnknownQuotedValue(value) => one_part_message(
                "Unknown 'quoted value '",
                value.as_str(),
                "'",
            ),
            ParseErrors::FailedParsingIntValue(value) => one_part_message(
                "Failed to parse int literal '",
                value.as_str(),
                "'",
            ),
            ParseErrors::FailedParsingHexValue(value, x) => two_part_message(
                "Invalid hex-string literal ",
                value.as_str(),
                ": ",
                x.as_str(),
                "",
            ),
            ParseErrors::FailedParsingPrincipal(value) => one_part_message(
                "Invalid principal literal: ",
                value.as_str(),
                "",
            ),
            ParseErrors::FailedParsingBuffer(value) => one_part_message(
                "Invalid buffer literal: ",
                value.as_str(),
                "",
            ),
            ParseErrors::FailedParsingField(value) => one_part_message(
                "Invalid field literal: ",
                value.as_str(),
                "",
            ),
            ParseErrors::FailedParsingRemainder(remainder) => one_part_message(
                "Failed to lex input remainder: '",
                remainder.as_str(),
                "'",
            ),
            ParseErrors::ClosingParenthesisUnexpected => "Tried to close list which isn't open.".to_owned(),
            ParseErrors::ClosingParenthesisExpected => "List expressions (..) left opened.".to_owned(),
            ParseErrors::ClosingTupleLiteralUnexpected => "Tried to close tuple literal which isn't open.".to_owned(),
            ParseErrors::ClosingTupleLiteralExpected => "Tuple literal {..} left opened.".to_owned(),
            ParseErrors::ColonSeparatorUnexpected => "Misplaced colon.".to_owned(),
            ParseErrors::CommaSeparatorUnexpected => "Misplaced comma.".to_owned(),
            ParseErrors::TupleColonExpected(i) => one_part_message(
                "Tuple literal construction expects a colon at index ",
                crate::text::dec_usize(*i).as_str(),
                "",
            ),
            ParseErrors::TupleCommaExpected(i) => one_part_message(
                "Tuple literal construction expects a comma at index ",
                crate::text::dec_usize(*i).as_str(),
                "",
            ),
            ParseErrors::TupleItemExpected(i) => one_part_message(
                "Tuple literal construction expects a key or value at index ",
                crate::text::dec_usize(*i).as_str(),
                "",
            ),
            ParseErrors::CircularReference(function_names) => one_part_message(
                "detected interdependent functions (",
                crate::text::join_comma(function_names).as_str(),
                ")",
            ),
            ParseErrors::NameAlreadyUsed(name) => one_part_message(
                "defining '",
                name.as_str(),
                "' conflicts with previous value",
            ),
            ParseErrors::ImportTraitBadSignature => "(use-trait ...) expects a trait name and a trait identifier".to_owned(),
            ParseErrors::DefineTraitBadSignature => "(define-trait ...) expects a trait name and a trait definition".to_owned(),
            ParseErrors::ImplTraitBadSignature => "(impl-trait ...) expects a trait identifier".to_owned(),
            ParseErrors::TraitReferenceNotAllowed => "trait references can not be stored".to_owned(),
            ParseErrors::TraitReferenceUnknown(trait_name) => one_part_message(
                "use of undeclared trait <",
                trait_name.as_str(),
                ">",
            ),
            ParseErrors::ExpressionStackDepthTooDeep => one_part_message(
                "AST has too deep of an expression nesting. The maximum stack depth is ",
                crate::text::dec_u64(crate::vm::MAX_CALL_STACK_DEPTH).as_str(),
                "",
            ),
            ParseErrors::InvalidCharactersDetected => "invalid characters detected".to_owned(),
            ParseErrors::InvalidEscaping => "invalid escaping detected in string".to_owned(),
            ParseErrors::CostComputationFailed(s) => one_part_message(
                "Cost computation failed: ",
                s.as_str(),
                "",
            ),
        }
    }

    fn suggestion(&self) -> (r: Option<String>) {
        None
    }
}

impl RuntimeErrorType {
    /// The printed form of a runtime failure: the variant's name, with its
    /// payload where one is carried. `None` only for the AST-error variant,
    /// whose nested parse failure is rendered free-form.
    pub open spec fn fixed_describe(&self) -> Option<Seq<char>> {
        match self {
            RuntimeErrorType::Arithmetic(m) => Some("Arithmetic("@ + m@ + ")"@),
            RuntimeErrorType::ArithmeticOverflow => Some("ArithmeticOverflow"@),
            RuntimeErrorType::ArithmeticUnderflow => Some("ArithmeticUnderflow"@),
            RuntimeErrorType::SupplyOverflow(a, b) => Some(
                "SupplyOverflow("@ + spec_dec(*a as nat) + ", "@ + spec_dec(*b as nat) + ")"@,
            ),
            RuntimeErrorType::SupplyUnderflow(a, b) => Some(
                "SupplyUnderflow("@ + spec_dec(*a as nat) + ", "@ + spec_dec(*b as nat) + ")"@,
            ),
            RuntimeErrorType::DivisionByZero => Some("DivisionByZero"@),
            RuntimeErrorType::ParseError(m) => Some("ParseError("@ + m@ + ")"@),
            RuntimeErrorType::ASTError(..) => None,
            RuntimeErrorType::MaxStackDepthReached => Some("MaxStackDepthReached"@),
            RuntimeErrorType::MaxContextDepthReached => Some("MaxContextDepthReached"@),
            RuntimeErrorType::ListDimensionTooHigh => Some("ListDimensionTooHigh"@),
            RuntimeErrorType::BadTypeConstruction => Some("BadTypeConstruction"@),
            RuntimeErrorType::ValueTooLarge => Some("ValueTooLarge"@),
            RuntimeErrorType::BadBlockHeight(m) => Some("BadBlockHeight("@ + m@ + ")"@),
            RuntimeErrorType::TransferNonPositiveAmount => Some("TransferNonPositiveAmount"@),
            RuntimeErrorType::NoSuchToken => Some("NoSuchToken"@),
            RuntimeErrorType::NotImplemented => Some("NotImplemented"@),
            RuntimeErrorType::NoSenderInContext => Some("NoSenderInContext"@),
            RuntimeErrorType::NonPositiveTokenSupply => Some("NonPositiveTokenSupply"@),
            RuntimeErrorType::JSONParseError(..) => Some("JSONParseError"@),
            RuntimeErrorType::AttemptToFetchInTransientContext => Some(
                "AttemptToFetchInTransientContext"@,
            ),
            RuntimeErrorType::BadNameValue(kind, value) => Some(
                "BadNameValue("@ + kind@ + ", "@ + value@ + ")"@,
            ),
            RuntimeErrorType::UnknownBlockHeaderHash(h) => Some(
                "UnknownBlockHeaderHash("@ + spec_hex(h.0@) + ")"@,
            ),
            RuntimeErrorType::BadBlockHash(..) => Some("BadBlockHash"@),
            RuntimeErrorType::UnwrapFailure => Some("UnwrapFailure"@),
        }
    }

    /// Renders the failure; every variant but the AST error is rendered
    /// exactly as `fixed_describe` says.
    pub fn describe(&self) -> (r: String)
        ensures
            self.fixed_describe() matches Some(t) ==> r@ == t,
    {
        match self {
            RuntimeErrorType::Arithmetic(s) => one_part_message("Arithmetic(", s.as_str(), ")"),
            RuntimeErrorType::ArithmeticOverflow => "ArithmeticOverflow".to_owned(),
            RuntimeErrorType::ArithmeticUnderflow => "ArithmeticUnderflow".to_owned(),
            RuntimeErrorType::SupplyOverflow(a, b) => two_part_message(
                "SupplyOverflow(",
                crate::text::dec_u128(*a).as_str(),
                ", ",
                crate::text::dec_u128(*b).as_str(),
                ")",
            ),
            RuntimeErrorType::SupplyUnderflow(a, b) => two_part_message(
                "SupplyUnderflow(",
                crate::text::dec_u128(*a).as_str(),
                ", ",
                crate::text::dec_u128(*b).as_str(),
                ")",
            ),
            RuntimeErrorType::DivisionByZero => "DivisionByZero".to_owned(),
            RuntimeErrorType::ParseError(s) => one_part_message("ParseError(", s.as_str(), ")"),
            RuntimeErrorType::ASTError(e) => one_part_message(
                "ASTError(",
                e.describe().as_str(),
                ")",
            ),
            RuntimeErrorType::MaxStackDepthReached => "MaxStackDepthReached".to_owned(),
            RuntimeErrorType::MaxContextDepthReached => "MaxContextDepthReached".to_owned(),
            RuntimeErrorType::ListDimensionTooHigh => "ListDimensionTooHigh".to_owned(),
            RuntimeErrorType::BadTypeConstruction => "BadTypeConstruction".to_owned(),
            RuntimeErrorType::ValueTooLarge => "ValueTooLarge".to_owned(),
            RuntimeErrorType::BadBlockHeight(s) => one_part_message(
                "BadBlockHeight(",
                s.as_str(),
                ")",
            ),
            RuntimeErrorType::TransferNonPositiveAmount => "TransferNonPositiveAmount".to_owned(),
            RuntimeErrorType::NoSuchToken => "NoSuchToken".to_owned(),
            RuntimeErrorType::NotImplemented => "NotImplemented".to_owned(),
            RuntimeErrorType::NoSenderInContext => "NoSenderInContext".to_owned(),
            RuntimeErrorType::NonPositiveTokenSupply => "NonPositiveTokenSupply".to_owned(),
            RuntimeErrorType::JSONParseError(_) => "JSONParseError".to_owned(),
            RuntimeErrorType::AttemptToFetchInTransientContext => "AttemptToFetchInTransientContext".to_owned(),
            RuntimeErrorType::BadNameValue(kind, value) => two_part_message(
                "BadNameValue(",
                kind,
                ", ",
                value.as_str(),
                ")",
            ),
            RuntimeErrorType::UnknownBlockHeaderHash(h) => one_part_message(
                "UnknownBlockHeaderHash(",
                hex_bytes32(&h.0).as_str(),
                ")",
            ),
            RuntimeErrorType::BadBlockHash(_) => "BadBlockHash".to_owned(),
            RuntimeErrorType::UnwrapFailure => "UnwrapFailure".to_owned(),
        }
    }
}

impl InterpreterFailureError {
    /// The printed form of a failure that should never occur: the
    /// variant's name, with its payload where one is carried.
    pub open spec fn spec_describe(&self) -> Seq<char> {
        match self {
            InterpreterFailureError::BadSender(v) => "BadSender("@ + v.spec_describe() + ")"@,
            InterpreterFailureError::BadSymbolicRepresentation(m) => "BadSymbolicRepresentation("@
                + m@ + ")"@,
            InterpreterFailureError::InterpreterError(m) => "InterpreterError("@ + m@ + ")"@,
            InterpreterFailureError::UninitializedPersistedVariable => "UninitializedPersistedVariable"@,
            InterpreterFailureError::FailedToConstructAssetTable => "FailedToConstructAssetTable"@,
            InterpreterFailureError::FailedToConstructEventBatch => "FailedToConstructEventBatch"@,
            InterpreterFailureError::SqliteError(..) => "SqliteError"@,
            InterpreterFailureError::BadFileName => "BadFileName"@,
            InterpreterFailureError::FailedToCreateDataDirectory => "FailedToCreateDataDirectory"@,
            InterpreterFailureError::MarfFailure(..) => "MarfFailure"@,
            InterpreterFailureError::FailureConstructingTupleWithType => "FailureConstructingTupleWithType"@,
            InterpreterFailureError::FailureConstructingListWithType => "FailureConstructingListWithType"@,
            InterpreterFailureError::InsufficientBalance => "InsufficientBalance"@,
            InterpreterFailureError::CostContractLoadFailure => "CostContractLoadFailure"@,
            InterpreterFailureError::DBError(..) => "DBError"@,
        }
    }

    /// Renders the failure exactly as `spec_describe` says.
    pub fn describe(&self) -> (r: String)
        ensures
            r@ == self.spec_describe(),
    {
        match self {
            InterpreterFailureError::BadSender(v) => one_part_message(
                "BadSender(",
                v.describe().as_str(),
                ")",
            ),
            InterpreterFailureError::BadSymbolicRepresentation(s) => one_part_message(
                "BadSymbolicRepresentation(",
                s.as_str(),
                ")",
            ),
            InterpreterFailureError::InterpreterError(s) => one_part_message(
                "InterpreterError(",
                s.as_str(),
                ")",
            ),
            InterpreterFailureError::UninitializedPersistedVariable => "UninitializedPersistedVariable".to_owned(),
            InterpreterFailureError::FailedToConstructAssetTable => "FailedToConstructAssetTable".to_owned(),
            InterpreterFailureError::FailedToConstructEventBatch => "FailedToConstructEventBatch".to_owned(),
            InterpreterFailureError::SqliteError(_) => "SqliteError".to_owned(),
            InterpreterFailureError::BadFileName => "BadFileName".to_owned(),
            InterpreterFailureError::FailedToCreateDataDirectory => "FailedToCreateDataDirectory".to_owned(),
            InterpreterFailureError::MarfFailure(_) => "MarfFailure".to_owned(),
            InterpreterFailureError::FailureConstructingTupleWithType => "FailureConstructingTupleWithType".to_owned(),
            InterpreterFailureError::FailureConstructingListWithType => "FailureConstructingListWithType".to_owned(),
            InterpreterFailureError::InsufficientBalance => "InsufficientBalance".to_owned(),
            InterpreterFailureError::CostContractLoadFailure => "CostContractLoadFailure".to_owned(),
            InterpreterFailureError::DBError(_) => "DBError".to_owned(),
        }
    }
}

/// The printed form of a stack trace: each frame's name followed by a
/// newline, innermost last.
pub open spec fn spec_stack_trace(q: Seq<String>) -> Seq<char>
    decreases q.len(),
{
    if q.len() == 0 {
        Seq::empty()
    } else {
        spec_stack_trace(q.drop_last()) + q.last()@ + "\n"@
    }
}

impl InterpreterError {
    /// The printed form of an execution failure, as far as its parts have a
    /// fixed rendering: a runtime failure shows its text and then its stack
    /// trace, one line per frame; a checker failure shows its message; the
    /// remaining variants show their payload's rendering. `None` only where
    /// a nested payload is rendered free-form.
    pub open spec fn fixed_describe(&self) -> Option<Seq<char>> {
        match self {
            InterpreterError::Runtime(e, trace_opt) => match e.fixed_describe() {
                Some(t) => match trace_opt {
                    Some(tr) => Some(t + "\n Stack Trace: \n"@ + spec_stack_trace(tr@)),
                    None => Some(t),
                },
                None => None,
            },
            InterpreterError::Unchecked(c) => match c.fixed_message() {
                Some(t) => Some("Unchecked("@ + t + ")"@),
                None => None,
            },
            InterpreterError::Interpreter(f) => Some("Interpreter("@ + f.spec_describe() + ")"@),
            InterpreterError::ShortReturn(t) => match t {
                ShortReturnType::ExpectedValue(v) => Some(
                    "ExpectedValue("@ + v.spec_describe() + ")"@,
                ),
                ShortReturnType::AssertionFailed(v) => Some(
                    "AssertionFailed("@ + v.spec_describe() + ")"@,
                ),
            },
        }
    }

    /// Renders the failure; wherever `fixed_describe` gives a text, exactly
    /// that text. Non-runtime variants render their payload's diagnostic
    /// message inside the variant name, not the bare debug form.
    pub fn describe(&self) -> (r: String)
        ensures
            self.fixed_describe() matches Some(t) ==> r@ == t,
    {
        match self {
            InterpreterError::Runtime(err, stack) => {
                let mut m = err.describe();
                match stack {
                    Some(stack_trace) => {
                        m.append("\n Stack Trace: \n");
                        let ghost base = m@;
                        let mut i: usize = 0;
                        proof {
                            assert(stack_trace@.take(0) =~= Seq::<String>::empty());
                        }
                        while i < stack_trace.len()
                            invariant
                                i <= stack_trace@.len(),
                                m@ == base + spec_stack_trace(stack_trace@.take(i as int)),
                            decreases stack_trace@.len() - i,
                        {
                            m.append(stack_trace[i].as_str());
                            m.append("\n");
                            proof {
                                assert(stack_trace@.take(i as int + 1).drop_last()
                                    =~= stack_trace@.take(i as int));
                                assert(stack_trace@.take(i as int + 1).last()
                                    == stack_trace@[i as int]);
                                assert(m@ =~= base + spec_stack_trace(
                                    stack_trace@.take(i as int + 1),
                                ));
                            }
                            i = i + 1;
                        }
                        proof {
                            assert(stack_trace@.take(stack_trace@.len() as int)
                                =~= stack_trace@);
                        }
                    },
                    None => {},
                }
                m
            },
            InterpreterError::Unchecked(e) => one_part_message(
                "Unchecked(",
                check_errors_message(e).as_str(),
                ")",
            ),
            InterpreterError::Interpreter(e) => one_part_message(
                "Interpreter(",
                e.describe().as_str(),
                ")",
            ),
            InterpreterError::ShortReturn(t) => match t {
                ShortReturnType::ExpectedValue(v) => one_part_message(
                    "ExpectedValue(",
                    v.describe().as_str(),
                    ")",
                ),
                ShortReturnType::AssertionFailed(v) => one_part_message(
                    "AssertionFailed(",
                    v.describe().as_str(),
                    ")",
                ),
            },
        }
    }
}

impl MarfError {
    /// The printed form of a storage-index failure.
    pub open spec fn spec_describe(&self) -> Seq<char>
        decreases self,
    {
        match self {
            MarfError::IOError(..) => "I/O error"@,
            MarfError::SQLError(..) => "Sqlite3 error"@,
            MarfError::CorruptionError(m) => m@,
            MarfError::CursorError(c) => c.description@,
            MarfError::BlockHashMapCorruptionError(opt_e) => match opt_e {
                Some(e) => "Corrupted MARF BlockHashMap"@ + ": "@ + e.spec_describe(),
                None => "Corrupted MARF BlockHashMap"@,
            },
            MarfError::NotOpenedError => "Tried to read data from unopened storage"@,
            MarfError::NotFoundError => "Object not found"@,
            MarfError::BackptrNotFoundError => "Object not found from backptrs"@,
            MarfError::ExistsError => "Object exists"@,
            MarfError::BadSeekValue => "Bad seek value"@,
            MarfError::ReadOnlyError => "Storage is in read-only mode"@,
            MarfError::UnconfirmedError => "Storage is in unconfirmed mode"@,
            MarfError::NotDirectoryError => "Not a directory"@,
            MarfError::PartialWriteError => "Data is partially written and not yet recovered"@,
            MarfError::InProgressError => "Write was in progress"@,
            MarfError::WriteNotBegunError => "Write has not begun"@,
            MarfError::RestoreMarfBlockError(..) => "Failed to restore previous open block during block header check"@,
            MarfError::NonMatchingForks(..) => "The supplied blocks are not in the same fork"@,
            MarfError::RequestedIdentifierForExtensionTrie => "BUG: MARF requested the identifier for a RAM trie"@,
        }
    }

    /// Renders the failure exactly as `spec_describe` says.
    pub fn describe(&self) -> (r: String)
        ensures
            r@ == self.spec_describe(),
        decreases *self,
    {
        match self {
            MarfError::IOError(_) => "I/O error".to_owned(),
            MarfError::SQLError(_) => "Sqlite3 error".to_owned(),
            MarfError::CorruptionError(s) => s.clone(),
            MarfError::CursorError(c) => c.description.clone(),
            MarfError::BlockHashMapCorruptionError(opt_e) => {
                let mut m = "Corrupted MARF BlockHashMap".to_owned();
                match opt_e {
                    Some(e) => {
                        m.append(": ");
                        m.append(e.describe().as_str());
                        proof {
                            assert(m@ =~= self.spec_describe());
                        }
                    },
                    None => {},
                }
                m
            },
            MarfError::NotOpenedError => "Tried to read data from unopened storage".to_owned(),
            MarfError::NotFoundError => "Object not found".to_owned(),
            MarfError::BackptrNotFoundError => "Object not found from backptrs".to_owned(),
            MarfError::ExistsError => "Object exists".to_owned(),
            MarfError::BadSeekValue => "Bad seek value".to_owned(),
            MarfError::ReadOnlyError => "Storage is in read-only mode".to_owned(),
            MarfError::UnconfirmedError => "Storage is in unconfirmed mode".to_owned(),
            MarfError::NotDirectoryError => "Not a directory".to_owned(),
            MarfError::PartialWriteError => "Data is partially written and not yet recovered".to_owned(),
            MarfError::InProgressError => "Write was in progress".to_owned(),
            MarfError::WriteNotBegunError => "Write has not begun".to_owned(),
            MarfError::RestoreMarfBlockError(_) => "Failed to restore previous open block during block header check".to_owned(),
            MarfError::NonMatchingForks(_, _) => "The supplied blocks are not in the same fork".to_owned(),
            MarfError::RequestedIdentifierForExtensionTrie => "BUG: MARF requested the identifier for a RAM trie".to_owned(),
        }
    }
}

impl DBError {
    /// The printed form of a persistence failure.
    pub open spec fn spec_describe(&self) -> Seq<char> {
        match self {
            DBError::NotImplemented => "Not implemented"@,
            DBError::NoDBError => "Database does not exist"@,
            DBError::ReadOnly => "Database is opened read-only"@,
            DBError::TypeError => "Invalid or unrepresentable database type"@,
            DBError::Corruption => "Database is corrupt"@,
            DBError::SerializationError(..) => "Serialization error"@,
            DBError::ParseError => "Parse error"@,
            DBError::Overflow => "Numeric overflow"@,
            DBError::NotFoundError => "Not found"@,
            DBError::ExistsError => "Already exists"@,
            DBError::InvalidPoxSortition => "Invalid PoX sortition"@,
            DBError::IOError(..) => "I/O error"@,
            DBError::SqliteError(..) => "Sqlite3 error"@,
            DBError::IndexError(e) => e.spec_describe(),
            DBError::Other(m) => m@,
        }
    }

    /// Renders the failure exactly as `spec_describe` says.
    pub fn describe(&self) -> (r: String)
        ensures
            r@ == self.spec_describe(),
    {
        match self {
            DBError::NotImplemented => "Not implemented".to_owned(),
            DBError::NoDBError => "Database does not exist".to_owned(),
            DBError::ReadOnly => "Database is opened read-only".to_owned(),
            DBError::TypeError => "Invalid or unrepresentable database type".to_owned(),
            DBError::Corruption => "Database is corrupt".to_owned(),
            DBError::SerializationError(_) => "Serialization error".to_owned(),
            DBError::ParseError => "Parse error".to_owned(),
            DBError::Overflow => "Numeric overflow".to_owned(),
            DBError::NotFoundError => "Not found".to_owned(),
            DBError::ExistsError => "Already exists".to_owned(),
            DBError::InvalidPoxSortition => "Invalid PoX sortition".to_owned(),
            DBError::IOError(_) => "I/O error".to_owned(),
            DBError::SqliteError(_) => "Sqlite3 error".to_owned(),
            DBError::IndexError(e) => e.describe(),
            DBError::Other(s) => s.clone(),
        }
    }
}

impl CheckError {
    /// The printed form of an analysis failure: its message, and the spans
    /// of the expressions involved; with no expressions attached, exactly
    /// the message.
    pub fn describe(&self) -> (r: String)
        ensures
            self.expressions is None ==> (self.err.fixed_message() matches Some(t) ==> r@ == t),
    {
        let mut m = self.err.message();
        match &self.expressions {
            Some(exprs) => {
                m.append("\nNear:\n");
                let mut i: usize = 0;
                while i < exprs.len()
                    decreases exprs.len() - i,
                {
                    m.append(exprs[i].span.describe().as_str());
                    m.append("\n");
                    i = i + 1;
                }
            },
            None => {},
        }
        m
    }
}

impl ParseError {
    /// The printed form of a parse failure: its message, and the spans of
    /// the expressions involved; with no expressions attached, exactly the
    /// message.
    pub fn describe(&self) -> (r: String)
        ensures
            self.pre_expressions is None ==> (self.err.fixed_message() matches Some(t) ==> r@ == t),
    {
        let mut m = self.err.message();
        match &self.pre_expressions {
            Some(exprs) => {
                m.append("\nNear:\n");
                let mut i: usize = 0;
                while i < exprs.len()
                    decreases exprs.len() - i,
                {
                    m.append(exprs[i].span.describe().as_str());
                    m.append("\n");
                    i = i + 1;
                }
            },
            None => {},
        }
        m
    }
}

impl ClientError {
    /// The printed form of a client-facing failure.
    pub open spec fn spec_describe(&self) -> Seq<char> {
        match self {
            ClientError::Message(s) => s@,
            ClientError::NotFound(s) => "HTTP path not matched: "@ + s@,
        }
    }

    /// Renders the failure exactly as `spec_describe` says.
    pub fn describe(&self) -> (r: String)
        ensures
            r@ == self.spec_describe(),
    {
        match self {
            ClientError::Message(s) => s.clone(),
            ClientError::NotFound(s) => {
                let mut r = "HTTP path not matched: ".to_owned();
                r.append(s.as_str());
                r
            },
        }
    }
}

impl ClarityError {
    /// The printed form of an engine-facing failure, where it is fixed:
    /// the cost message with both operands, the bad-transaction text, and
    /// the aborted-transaction notice. The wrapped analysis, parse and
    /// execution failures are rendered free-form.
    pub open spec fn fixed_describe(&self) -> Option<Seq<char>> {
        match self {
            ClarityError::CostError(a, b) => Some(
                "Cost Error: "@ + a.spec_describe() + " cost exceeded budget of "@
                    + b.spec_describe() + " cost"@,
            ),
            ClarityError::BadTransaction(m) => Some(m@),
            ClarityError::AbortedByCallback(..) => Some("Post condition aborted transaction"@),
            ClarityError::Analysis(..) => None,
            ClarityError::Parse(..) => None,
            ClarityError::Interpreter(..) => None,
        }
    }

    /// Renders the failure; wherever `fixed_describe` gives a text,
    /// exactly that text.
    pub fn describe(&self) -> (r: String)
        ensures
            self.fixed_describe() matches Some(t) ==> r@ == t,
    {
        match self {
            ClarityError::CostError(a, b) => two_part_message(
                "Cost Error: ",
                a.describe().as_str(),
                " cost exceeded budget of ",
                b.describe().as_str(),
                " cost",
            ),
            ClarityError::Analysis(e) => e.describe(),
            ClarityError::Parse(e) => e.describe(),
            ClarityError::AbortedByCallback(_, _, _) => "Post condition aborted transaction".to_owned(),
            ClarityError::Interpreter(e) => e.describe(),
            ClarityError::BadTransaction(s) => s.clone(),
        }
    }
}

impl NetworkError {
    /// The printed form of a network-layer failure, where it is fixed: the
    /// string-carrying variants show their text, the payload-free variants
    /// their fixed message, and the persistence, index and client wrappers
    /// their payload's rendering. The engine-facing wrapper is rendered
    /// free-form.
    pub open spec fn fixed_describe(&self) -> Option<Seq<char>> {
        match self {
            NetworkError::SerializeError(m) => Some(m@),
            NetworkError::DeserializeError(m) => Some(m@),
            NetworkError::ReadError(..) => Some("Failed to read from the underlying stream"@),
            NetworkError::WriteError(..) => Some("Failed to write to the underlying stream"@),
            NetworkError::UnderflowError(m) => Some(m@),
            NetworkError::OverflowError(m) => Some(m@),
            NetworkError::WrongProtocolFamily => Some("Improper use of protocol family"@),
            NetworkError::ArrayTooLong => Some("Array too long"@),
            NetworkError::RecvTimeout => Some("Packet receive timeout"@),
            NetworkError::SigningError(m) => Some(m@),
            NetworkError::VerifyingError(m) => Some(m@),
            NetworkError::TemporarilyDrained => Some(
                "Temporarily out of bytes to read; try again later"@,
            ),
            NetworkError::PermanentlyDrained => Some("Out of bytes to read"@),
            NetworkError::FilesystemError => Some("Disk I/O error"@),
            NetworkError::DBError(e) => Some(e.spec_describe()),
            NetworkError::SocketMutexPoisoned => Some("socket mutex was poisoned"@),
            NetworkError::SocketNotConnectedToPeer => Some("not connected to peer"@),
            NetworkError::ConnectionBroken => Some("connection to peer node is broken"@),
            NetworkError::ConnectionError => Some(
                "connection to peer could not be (re-)established"@,
            ),
            NetworkError::OutboxOverflow => Some("too many outgoing messages queued"@),
            NetworkError::InboxOverflow => Some("too many messages pending"@),
            NetworkError::SendError(m) => Some(m@),
            NetworkError::RecvError(m) => Some(m@),
            NetworkError::InvalidMessage => Some("invalid message (malformed or bad signature)"@),
            NetworkError::InvalidHandle => Some("invalid network handle"@),
            NetworkError::FullHandle => Some("network handle is full and needs to be drained"@),
            NetworkError::InvalidHandshake => Some("invalid handshake from remote peer"@),
            NetworkError::StaleNeighbor => Some("neighbor is too far behind the chain tip"@),
            NetworkError::NoSuchNeighbor => Some("no such neighbor"@),
            NetworkError::BindError => Some("Failed to bind to the given address"@),
            NetworkError::PollError => Some("Failed to poll"@),
            NetworkError::AcceptError => Some("Failed to accept connection"@),
            NetworkError::RegisterError => Some("Failed to register socket with poller"@),
            NetworkError::SocketError => Some("Socket error"@),
            NetworkError::NotConnected => Some("Not connected to peer network"@),
            NetworkError::PeerNotConnected => Some("Remote peer is not connected to us"@),
            NetworkError::TooManyPeers => Some("Too many peer connections open"@),
            NetworkError::AlreadyConnected(..) => Some("Peer already connected"@),
            NetworkError::InProgress => Some("Message already in progress"@),
            NetworkError::Denied => Some("Peer is denied"@),
            NetworkError::NoDataUrl => Some("No data URL available"@),
            NetworkError::PeerThrottled => Some("Peer is transmitting too fast"@),
            NetworkError::LookupError(m) => Some(m@),
            NetworkError::MARFError(e) => Some(e.spec_describe()),
            NetworkError::ClarityError(..) => None,
            NetworkError::ChainstateError(m) => Some(m@),
            NetworkError::ClientError(e) => Some("ClientError: "@ + e.spec_describe()),
            NetworkError::CoordinatorClosed => Some("Coordinator hung up"@),
            NetworkError::StaleView => Some("State view is stale"@),
            NetworkError::ConnectionCycle => Some("Tried to connect to myself"@),
            NetworkError::NotFoundError => Some("Requested data not found"@),
        }
    }

    /// Renders the failure; wherever `fixed_describe` gives a text,
    /// exactly that text.
    pub fn describe(&self) -> (r: String)
        ensures
            self.fixed_describe() matches Some(t) ==> r@ == t,
    {
        match self {
            NetworkError::SerializeError(s) => s.clone(),
            NetworkError::DeserializeError(s) => s.clone(),
            NetworkError::ReadError(_) => "Failed to read from the underlying stream".to_owned(),
            NetworkError::WriteError(_) => "Failed to write to the underlying stream".to_owned(),
            NetworkError::UnderflowError(s) => s.clone(),
            NetworkError::OverflowError(s) => s.clone(),
            NetworkError::WrongProtocolFamily => "Improper use of protocol family".to_owned(),
            NetworkError::ArrayTooLong => "Array too long".to_owned(),
            NetworkError::RecvTimeout => "Packet receive timeout".to_owned(),
            NetworkError::SigningError(s) => s.clone(),
            NetworkError::VerifyingError(s) => s.clone(),
            NetworkError::TemporarilyDrained => "Temporarily out of bytes to read; try again later".to_owned(),
            NetworkError::PermanentlyDrained => "Out of bytes to read".to_owned(),
            NetworkError::FilesystemError => "Disk I/O error".to_owned(),
            NetworkError::DBError(e) => e.describe(),
            NetworkError::SocketMutexPoisoned => "socket mutex was poisoned".to_owned(),
            NetworkError::SocketNotConnectedToPeer => "not connected to peer".to_owned(),
            NetworkError::ConnectionBroken => "connection to peer node is broken".to_owned(),
            NetworkError::ConnectionError => "connection to peer could not be (re-)established".to_owned(),
            NetworkError::OutboxOverflow => "too many outgoing messages queued".to_owned(),
            NetworkError::InboxOverflow => "too many messages pending".to_owned(),
            NetworkError::SendError(s) => s.clone(),
            NetworkError::RecvError(s) => s.clone(),
            NetworkError::InvalidMessage => "invalid message (malformed or bad signature)".to_owned(),
            NetworkError::InvalidHandle => "invalid network handle".to_owned(),
            NetworkError::FullHandle => "network handle is full and needs to be drained".to_owned(),
            NetworkError::InvalidHandshake => "invalid handshake from remote peer".to_owned(),
            NetworkError::StaleNeighbor => "neighbor is too far behind the chain tip".to_owned(),
            NetworkError::NoSuchNeighbor => "no such neighbor".to_owned(),
            NetworkError::BindError => "Failed to bind to the given address".to_owned(),
            NetworkError::PollError => "Failed to poll".to_owned(),
            NetworkError::AcceptError => "Failed to accept connection".to_owned(),
            NetworkError::RegisterError => "Failed to register socket with poller".to_owned(),
            NetworkError::SocketError => "Socket error".to_owned(),
            NetworkError::NotConnected => "Not connected to peer network".to_owned(),
            NetworkError::PeerNotConnected => "Remote peer is not connected to us".to_owned(),
            NetworkError::TooManyPeers => "Too many peer connections open".to_owned(),
            NetworkError::AlreadyConnected(_, _) => "Peer already connected".to_owned(),
            NetworkError::InProgress => "Message already in progress".to_owned(),
            NetworkError::Denied => "Peer is denied".to_owned(),
            NetworkError::NoDataUrl => "No data URL available".to_owned(),
            NetworkError::PeerThrottled => "Peer is transmitting too fast".to_owned(),
            NetworkError::LookupError(s) => s.clone(),
            NetworkError::ChainstateError(s) => s.clone(),
            NetworkError::ClarityError(e) => e.describe(),
            NetworkError::MARFError(e) => e.describe(),
            NetworkError::ClientError(e) => {
                let mut m = "ClientError: ".to_owned();
                m.append(e.describe().as_str());
                m
            },
            NetworkError::CoordinatorClosed => "Coordinator hung up".to_owned(),
            NetworkError::StaleView => "State view is stale".to_owned(),
            NetworkError::ConnectionCycle => "Tried to connect to myself".to_owned(),
            NetworkError::NotFoundError => "Requested data not found".to_owned(),
        }
    }
}

impl ChainstateError {
    /// The printed form of a chain-state failure, where it is fixed: the
    /// validity failures show their text, the cost overflow shows its three
    /// operands, and the persistence, index and I/O wrappers show their
    /// payload's rendering. The engine-facing and network wrappers are
    /// rendered free-form.
    pub open spec fn fixed_describe(&self) -> Option<Seq<char>> {
        match self {
            ChainstateError::InvalidFee => Some("Invalid fee"@),
            ChainstateError::InvalidStacksBlock(m) => Some(m@),
            ChainstateError::InvalidStacksMicroblock(m, ..) => Some(m@),
            ChainstateError::InvalidStacksTransaction(m, ..) => Some(m@),
            ChainstateError::PostConditionFailed(m) => Some(m@),
            ChainstateError::NoSuchBlockError => Some("No such Stacks block"@),
            ChainstateError::InvalidChainstateDB => Some("Invalid chainstate database"@),
            ChainstateError::BlockTooBigError => Some("Too much data in block"@),
            ChainstateError::BlockCostExceeded => Some("Block execution budget exceeded"@),
            ChainstateError::NoTransactionsToMine => Some("No transactions to mine"@),
            ChainstateError::MicroblockStreamTooLongError => Some(
                "Too many microblocks in stream"@,
            ),
            ChainstateError::IncompatibleSpendingConditionError => Some(
                "Spending condition is incompatible with this operation"@,
            ),
            ChainstateError::CostOverflowError(c1, c2, c3) => Some(
                "Cost overflow: before="@ + c1.spec_describe() + ", after="@ + c2.spec_describe()
                    + ", budget="@ + c3.spec_describe(),
            ),
            ChainstateError::ClarityError(..) => None,
            ChainstateError::DBError(e) => Some(e.spec_describe()),
            ChainstateError::NetError(..) => None,
            ChainstateError::MARFError(e) => Some(e.spec_describe()),
            ChainstateError::ReadError(..) => Some("Failed to read from the underlying stream"@),
            ChainstateError::WriteError(..) => Some(
                "Failed to write to the underlying stream"@,
            ),
            ChainstateError::MemPoolError(m) => Some(m@),
            ChainstateError::PoxAlreadyLocked => Some(
                "Account has already locked STX for PoX"@,
            ),
            ChainstateError::PoxInsufficientBalance => Some("Not enough STX to lock"@),
            ChainstateError::PoxNoRewardCycle => Some("No such reward cycle"@),
        }
    }

    /// Renders the failure; wherever `fixed_describe` gives a text,
    /// exactly that text.
    pub fn describe(&self) -> (r: String)
        ensures
            self.fixed_describe() matches Some(t) ==> r@ == t,
    {
        match self {
            ChainstateError::InvalidFee => "Invalid fee".to_owned(),
            ChainstateError::InvalidStacksBlock(s) => s.clone(),
            ChainstateError::InvalidStacksMicroblock(s, _) => s.clone(),
            ChainstateError::InvalidStacksTransaction(s, _) => s.clone(),
            ChainstateError::PostConditionFailed(s) => s.clone(),
            ChainstateError::NoSuchBlockError => "No such Stacks block".to_owned(),
            ChainstateError::InvalidChainstateDB => "Invalid chainstate database".to_owned(),
            ChainstateError::BlockTooBigError => "Too much data in block".to_owned(),
            ChainstateError::BlockCostExceeded => "Block execution budget exceeded".to_owned(),
            ChainstateError::MicroblockStreamTooLongError => "Too many microblocks in stream".to_owned(),
            ChainstateError::IncompatibleSpendingConditionError => "Spending condition is incompatible with this operation".to_owned(),
            ChainstateError::CostOverflowError(c1, c2, c3) => {
                let mut m = "Cost overflow: before=".to_owned();
                m.append(c1.describe().as_str());
                m.append(", after=");
                m.append(c2.describe().as_str());
                m.append(", budget=");
                m.append(c3.describe().as_str());
                proof {
                    assert(m@ =~= "Cost overflow: before="@ + c1.spec_describe() + ", after="@
                        + c2.spec_describe() + ", budget="@ + c3.spec_describe());
                }
                m
            },
            ChainstateError::ClarityError(e) => e.describe(),
            ChainstateError::DBError(e) => e.describe(),
            ChainstateError::NetError(e) => e.describe(),
            ChainstateError::MARFError(e) => e.describe(),
            ChainstateError::ReadError(_) => "Failed to read from the underlying stream".to_owned(),
            ChainstateError::WriteError(_) => "Failed to write to the underlying stream".to_owned(),
            ChainstateError::MemPoolError(s) => s.clone(),
            ChainstateError::NoTransactionsToMine => "No transactions to mine".to_owned(),
            ChainstateError::PoxAlreadyLocked => "Account has already locked STX for PoX".to_owned(),
            ChainstateError::PoxInsufficientBalance => "Not enough STX to lock".to_owned(),
            ChainstateError::PoxNoRewardCycle => "No such reward cycle".to_owned(),
        }
    }
}
} // verus!
