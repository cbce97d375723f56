use rust_core::ts_bridge::{check_skill_reply, JsonRpcError};

#[test]
fn skill_reply_with_its_id_and_result_settles() {
    assert_eq!(check_skill_reply(3, 3, None, true), Ok(()));
}

#[test]
fn skill_reply_with_another_id_is_refused() {
    assert_eq!(
        check_skill_reply(7, 12, None, true),
        Err("Response id 12 doesn't match request id 7".to_string())
    );
}

#[test]
fn skill_reply_error_names_code_and_message() {
    let err = JsonRpcError { code: -32601, message: "no such skill".to_string(), data: None };
    assert_eq!(
        check_skill_reply(1, 1, Some(&err), true),
        Err("Bridge RPC error (code -32601): no such skill".to_string())
    );
    let low = JsonRpcError { code: i64::MIN, message: "x".to_string(), data: None };
    assert_eq!(
        check_skill_reply(1, 1, Some(&low), false),
        Err("Bridge RPC error (code -9223372036854775808): x".to_string())
    );
}

#[test]
fn skill_reply_without_result_is_refused() {
    assert_eq!(
        check_skill_reply(2, 2, None, false),
        Err("Bridge response missing result field".to_string())
    );
}
