//! The error taxonomy's translation rules: cost-error collapse, the
//! not-found persistence rule, the network-boundary collapse, and the
//! structural equality of error values.

use stacks_codec::errors::{
    CheckError, CheckErrors, ChainstateError, ClarityError, CostErrors, DBError,
    DiagnosableError, IncomparableError, InterpreterError, InterpreterFailureError, MarfError,
    NetworkError, ParseError, ParseErrors, ShortReturnType,
};
use stacks_codec::types::BlockHeaderHash;
use stacks_codec::vm::{
    ClarityValue, ExecutionCost, GlobalContext, LimitedCostTracker, Span, SymbolicExpression,
};

fn cost(n: u64) -> ExecutionCost {
    ExecutionCost {
        write_length: n,
        write_count: n,
        read_length: n,
        read_count: n,
        runtime: n,
    }
}

#[test]
fn equality() {
    assert_eq!(
        InterpreterError::ShortReturn(ShortReturnType::ExpectedValue(ClarityValue::Bool(true))),
        InterpreterError::ShortReturn(ShortReturnType::ExpectedValue(ClarityValue::Bool(true)))
    );
    assert_eq!(
        InterpreterError::Interpreter(InterpreterFailureError::InterpreterError(
            "".to_string()
        )),
        InterpreterError::Interpreter(InterpreterFailureError::InterpreterError(
            "".to_string()
        ))
    );
    assert!(
        InterpreterError::ShortReturn(ShortReturnType::ExpectedValue(ClarityValue::Bool(true)))
            != InterpreterError::Interpreter(InterpreterFailureError::InterpreterError(
                "".to_string()
            ))
    );
}

#[test]
fn cost_balance_collapse_is_exact() {
    // a balance-exceeded outcome with (used=500, budget=400) keeps both
    // operands unchanged through the analysis layer
    let used = cost(500);
    let budget = cost(400);
    let e = CheckError::new(CheckErrors::CostBalanceExceeded(used, budget));
    match ClarityError::from_check(e) {
        ClarityError::CostError(a, b) => {
            assert_eq!(a, cost(500));
            assert_eq!(b, cost(400));
        }
        other => panic!("expected a cost error, got {:?}", other),
    }
}

#[test]
fn cost_balance_collapse_through_interpreter_layer() {
    let e = InterpreterError::Unchecked(CheckErrors::CostBalanceExceeded(cost(500), cost(400)));
    match ClarityError::from_interpreter(e) {
        ClarityError::CostError(a, b) => {
            assert_eq!(a, cost(500));
            assert_eq!(b, cost(400));
        }
        other => panic!("expected a cost error, got {:?}", other),
    }
}

#[test]
fn cost_overflow_collapses_to_maximal_pair() {
    let e = CheckError::new(CheckErrors::CostOverflow);
    match ClarityError::from_check(e) {
        ClarityError::CostError(a, b) => {
            assert_eq!(a, ExecutionCost::max_value());
            assert_eq!(b, ExecutionCost::max_value());
        }
        other => panic!("expected a cost error, got {:?}", other),
    }
}

#[test]
fn memory_balance_collapses_and_discards_memory_figures() {
    let e = CheckError::new(CheckErrors::MemoryBalanceExceeded(123, 456));
    match ClarityError::from_check(e) {
        ClarityError::CostError(a, b) => {
            assert_eq!(a, ExecutionCost::max_value());
            assert_eq!(b, ExecutionCost::max_value());
        }
        other => panic!("expected a cost error, got {:?}", other),
    }
}

#[test]
fn parse_cost_collapse_matches_check_collapse() {
    let e = ParseError::new(ParseErrors::CostBalanceExceeded(cost(7), cost(3)));
    match ClarityError::from_parse(e) {
        ClarityError::CostError(a, b) => {
            assert_eq!(a, cost(7));
            assert_eq!(b, cost(3));
        }
        other => panic!("expected a cost error, got {:?}", other),
    }
    let plain = ParseError::new(ParseErrors::TooManyExpressions);
    assert!(matches!(
        ClarityError::from_parse(plain),
        ClarityError::Parse(_)
    ));
}

#[test]
fn non_cost_check_error_wraps_as_analysis() {
    let e = CheckError::new(CheckErrors::BadTupleFieldName);
    match ClarityError::from_check(e) {
        ClarityError::Analysis(inner) => assert_eq!(inner.err, CheckErrors::BadTupleFieldName),
        other => panic!("expected an analysis error, got {:?}", other),
    }
}

#[test]
fn cost_contract_load_failure_becomes_computation_failure() {
    match CheckErrors::from_cost(CostErrors::CostContractLoadFailure) {
        CheckErrors::CostComputationFailed(s) => {
            assert_eq!(s, "Failed to load cost contract");
        }
        other => panic!("unexpected mapping: {:?}", other),
    }
}

#[test]
fn not_found_persistence_outcome_stays_distinct_in_index_layer() {
    assert!(matches!(
        MarfError::from_db(DBError::NotFoundError),
        MarfError::NotFoundError
    ));
    match MarfError::from_db(DBError::Corruption) {
        MarfError::CorruptionError(s) => assert_eq!(s, "Database is corrupt"),
        other => panic!("expected corruption, got {:?}", other),
    }
}

#[test]
fn no_rows_sqlite_outcome_becomes_not_found() {
    assert!(matches!(
        MarfError::from_sqlite(rusqlite::Error::QueryReturnedNoRows),
        MarfError::NotFoundError
    ));
    assert!(matches!(
        MarfError::from_sqlite(rusqlite::Error::InvalidQuery),
        MarfError::SQLError(_)
    ));
}

#[test]
fn network_boundary_keeps_nested_payloads() {
    let net = NetworkError::from_chainstate(ChainstateError::NetError(NetworkError::RecvTimeout));
    assert!(matches!(net, NetworkError::RecvTimeout));
    let db = NetworkError::from_chainstate(ChainstateError::DBError(DBError::ReadOnly));
    assert!(matches!(db, NetworkError::DBError(DBError::ReadOnly)));
}

#[test]
fn network_boundary_prefixes_validity_failures() {
    match NetworkError::from_chainstate(ChainstateError::InvalidStacksBlock("bad".to_string())) {
        NetworkError::ChainstateError(m) => assert_eq!(m, "Invalid stacks block: bad"),
        other => panic!("expected the generic chain-state variant, got {:?}", other),
    }
    match NetworkError::from_chainstate(ChainstateError::PostConditionFailed("p".to_string())) {
        NetworkError::ChainstateError(m) => assert_eq!(m, "Postcondition failed: p"),
        other => panic!("expected the generic chain-state variant, got {:?}", other),
    }
}

#[test]
fn network_boundary_collapses_other_variants_to_description() {
    match NetworkError::from_chainstate(ChainstateError::PoxAlreadyLocked) {
        NetworkError::ChainstateError(m) => {
            assert!(m.starts_with("Stacks chainstate error: "));
            // the description names the collapsed variant
            assert!(m.contains("PoxAlreadyLocked"));
        }
        other => panic!("expected the generic chain-state variant, got {:?}", other),
    }
}

#[test]
fn from_cost_error_keeps_balance_operands() {
    let context = GlobalContext {
        cost_track: LimitedCostTracker {
            total: cost(9),
            limit: cost(10),
        },
    };
    let r = ChainstateError::from_cost_error(
        CostErrors::CostBalanceExceeded(cost(500), cost(400)),
        cost(1),
        &context,
    );
    match r {
        ChainstateError::CostOverflowError(before, used, budget) => {
            assert_eq!(before, cost(1));
            assert_eq!(used, cost(500));
            assert_eq!(budget, cost(400));
        }
        other => panic!("expected a cost overflow, got {:?}", other),
    }
}

#[test]
fn from_cost_error_reports_context_totals_otherwise() {
    let context = GlobalContext {
        cost_track: LimitedCostTracker {
            total: cost(9),
            limit: cost(10),
        },
    };
    let r = ChainstateError::from_cost_error(CostErrors::CostOverflow, cost(1), &context);
    match r {
        ChainstateError::CostOverflowError(before, used, budget) => {
            assert_eq!(before, cost(1));
            assert_eq!(used, cost(9));
            assert_eq!(budget, cost(10));
        }
        other => panic!("expected a cost overflow, got {:?}", other),
    }
}

#[test]
fn json_error_wraps_as_runtime_error() {
    let bad = serde_json::from_str::<serde_json::Value>("{not json").unwrap_err();
    let e = InterpreterError::from_json_error(bad);
    assert!(matches!(
        e,
        InterpreterError::Runtime(
            stacks_codec::errors::RuntimeErrorType::JSONParseError(_),
            None
        )
    ));
}

#[test]
fn incomparable_payloads_never_compare_equal() {
    let a = IncomparableError { err: 1u32 };
    let b = IncomparableError { err: 1u32 };
    assert_ne!(a, b);
}

#[test]
fn check_error_tracks_expressions() {
    let mut e = CheckError::new(CheckErrors::BadMapName);
    assert!(!e.has_expression());
    let expr = SymbolicExpression {
        id: 7,
        span: Span {
            start_line: 3,
            start_column: 1,
            end_line: 3,
            end_column: 9,
        },
    };
    e.set_expression(&expr);
    assert!(e.has_expression());
    assert_eq!(e.diagnostic.spans.len(), 1);
    assert_eq!(e.diagnostic.spans[0], expr.span);
}

#[test]
fn diagnostic_messages_render_operands() {
    assert_eq!(
        CheckErrors::IncorrectArgumentCount(2, 3).message(),
        "expecting 2 arguments, got 3"
    );
    assert_eq!(
        CheckErrors::NoSuchContract("alpha".to_string()).message(),
        "use of unresolved contract 'alpha'"
    );
    assert!(ParseErrors::ExpressionStackDepthTooDeep
        .message()
        .ends_with("The maximum stack depth is 64"));
    assert_eq!(
        CheckErrors::BadLetSyntax.suggestion(),
        Some("'let' syntax example: (let ((supply 1000) (ttl 60)) <next-expression>)".to_string())
    );
    assert_eq!(ParseErrors::TooManyExpressions.suggestion(), None);
}

#[test]
fn short_return_carries_its_value() {
    let v = ShortReturnType::ExpectedValue(ClarityValue::UInt(42));
    assert_eq!(v.into_value(), ClarityValue::UInt(42));
    let w = ShortReturnType::AssertionFailed(ClarityValue::Int(-5));
    assert_eq!(w.into_value(), ClarityValue::Int(-5));
}

#[test]
fn network_boundary_names_the_microblock_hash() {
    let hash = BlockHeaderHash([0xab; 32]);
    match NetworkError::from_chainstate(ChainstateError::InvalidStacksMicroblock(
        "bad".to_string(),
        hash,
    )) {
        NetworkError::ChainstateError(m) => {
            let expected_hex = "ab".repeat(32);
            assert_eq!(m, format!("Invalid stacks microblock {}: bad", expected_hex));
        }
        other => panic!("expected the generic chain-state variant, got {:?}", other),
    }
}

#[test]
fn describe_renders_cost_operands() {
    let e = ClarityError::CostError(cost(2), cost(1));
    let text = e.describe();
    assert!(text.starts_with("Cost Error: "));
    assert!(text.contains("runtime: 2"));
    assert!(text.contains("runtime: 1"));
}

#[test]
fn describe_renders_runtime_stack_trace() {
    let e = InterpreterError::Runtime(
        stacks_codec::errors::RuntimeErrorType::DivisionByZero,
        Some(vec!["_native_:native_div".to_string()]),
    );
    assert_eq!(e.describe(), "DivisionByZero\n Stack Trace: \n_native_:native_div\n");
}

#[test]
fn value_payloads_render_in_messages() {
    assert_eq!(
        CheckErrors::ExpectedOptionalValue(ClarityValue::Int(-5)).message(),
        "expecting expression of type 'optional', found '-5'"
    );
    assert_eq!(
        CheckErrors::ExpectedResponseValue(ClarityValue::UInt(42)).message(),
        "expecting expression of type 'response', found 'u42'"
    );
    assert_eq!(
        CheckErrors::ExpectedOptionalOrResponseValue(ClarityValue::Bool(false)).message(),
        "expecting expression of type 'optional' or 'response', found 'false'"
    );
}

#[test]
fn memory_balance_collapses_through_interpreter_layer() {
    let e = InterpreterError::Unchecked(CheckErrors::MemoryBalanceExceeded(11, 22));
    match ClarityError::from_interpreter(e) {
        ClarityError::CostError(a, b) => {
            assert_eq!(a, ExecutionCost::max_value());
            assert_eq!(b, ExecutionCost::max_value());
        }
        other => panic!("expected a cost error, got {:?}", other),
    }
}

#[test]
fn sqlite_payload_is_carried_unchanged() {
    assert!(matches!(
        MarfError::from_sqlite(rusqlite::Error::InvalidQuery),
        MarfError::SQLError(rusqlite::Error::InvalidQuery)
    ));
}

#[test]
fn index_corruption_carries_the_persistence_description() {
    match MarfError::from_db(DBError::InvalidPoxSortition) {
        MarfError::CorruptionError(s) => assert_eq!(s, "Invalid PoX sortition"),
        other => panic!("expected corruption, got {:?}", other),
    }
    assert_eq!(DBError::IndexError(MarfError::NotFoundError).describe(), "Object not found");
}

#[test]
fn interpreter_cost_translation_keeps_computation_failures() {
    let e = InterpreterError::from_cost(CostErrors::CostComputationFailed("why".to_string()));
    assert_eq!(
        e,
        InterpreterError::Unchecked(CheckErrors::CostComputationFailed("why".to_string()))
    );
    let f = InterpreterError::from_cost(CostErrors::CostContractLoadFailure);
    assert_eq!(
        f,
        InterpreterError::Unchecked(CheckErrors::CostComputationFailed(
            "Failed to load cost contract".to_string()
        ))
    );
}

#[test]
fn unchecked_errors_describe_their_message() {
    let e = InterpreterError::Unchecked(CheckErrors::CostOverflow);
    assert_eq!(
        e.describe(),
        "Unchecked(contract execution cost overflowed cost counter)"
    );
}

#[test]
fn setters_leave_the_rest_of_the_diagnostic_alone() {
    let mut e = CheckError::new(CheckErrors::BadLetSyntax);
    let message_before = e.diagnostic.message.clone();
    let suggestion_before = e.diagnostic.suggestion.clone();
    let expr = SymbolicExpression {
        id: 1,
        span: Span {
            start_line: 1,
            start_column: 2,
            end_line: 1,
            end_column: 3,
        },
    };
    e.set_expression(&expr);
    assert_eq!(e.diagnostic.message, message_before);
    assert_eq!(e.diagnostic.suggestion, suggestion_before);
}
