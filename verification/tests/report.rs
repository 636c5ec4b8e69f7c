//! The external reason-code surface: stable codes, the report shape, and
//! the unstable diagnostic.

use stacks_codec::errors::ChainstateError;

#[test]
fn report_shape_for_no_such_block() {
    let report = ChainstateError::NoSuchBlockError.into_json();
    assert_eq!(report["error"], "chainstate error");
    assert_eq!(report["reason"], "NoSuchBlockError");
    assert!(report["reason_data"].as_str().unwrap().len() > 0);
}

#[test]
fn reason_code_is_payload_independent() {
    let a = ChainstateError::InvalidStacksBlock("first".to_string()).into_json();
    let b = ChainstateError::InvalidStacksBlock("second".to_string()).into_json();
    assert_eq!(a["reason"], "InvalidStacksBlock");
    assert_eq!(b["reason"], "InvalidStacksBlock");
    assert_eq!(a["reason"], b["reason"]);
    // the diagnostic differs with the payload: it is not the stable part
    assert_ne!(a["reason_data"], b["reason_data"]);
}

#[test]
fn reason_codes_name_their_variants() {
    assert_eq!(
        ChainstateError::InvalidFee.into_json()["reason"],
        "InvalidFee"
    );
    assert_eq!(
        ChainstateError::MemPoolError("full".to_string()).into_json()["reason"],
        "MemPoolError"
    );
    assert_eq!(
        ChainstateError::PoxNoRewardCycle.into_json()["reason"],
        "PoxNoRewardCycle"
    );
}

#[test]
fn diagnostic_renders_the_error_value() {
    let report = ChainstateError::MemPoolError("queue full".to_string()).into_json();
    let data = report["reason_data"].as_str().unwrap();
    assert!(data.contains("MemPoolError"));
    assert!(data.contains("queue full"));
}
