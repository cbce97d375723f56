//! The messages of the TypeScript skills bridge that carry plain values, and
//! the test of whether an answer of the bridge settles the request it was sent for.
use crate::text::{append_str, decimal, decimal_chars_u64, string_of};
use vstd::prelude::*;

verus! {

/// What a prompt sent to the skills bridge carries.
#[derive(Debug, Clone)]
pub struct SendPromptArgs {
    pub text: String,
    pub provider: Option<String>,
    pub model: Option<String>,
    pub system: Option<String>,
}

/// A piece of a streamed answer from the skills bridge; the last one is marked done.
#[derive(Debug, Clone)]
pub struct TokenChunk {
    pub text: String,
    pub done: bool,
}

/// A skill the bridge offers; `parameters` is its JSON schema as text.
#[derive(Debug, Clone)]
pub struct SkillInfo {
    pub name: String,
    pub description: String,
    pub parameters: String,
}

/// A call of a skill; `args` is a JSON text.
#[derive(Debug, Clone)]
pub struct CallSkillArgs {
    pub name: String,
    pub args: String,
}

/// A tool made known to the bridge; `schema` is a JSON text.
#[derive(Debug, Clone)]
pub struct RegisterToolArgs {
    pub name: String,
    pub schema: String,
    pub handler: String,
}

/// What a skill call gave; `data` is a JSON text.
#[derive(Debug, Clone)]
pub struct CallSkillResult {
    pub success: bool,
    pub data: String,
    pub error: Option<String>,
}

/// The error part of an answer: its code and message; `data` is a JSON text.
#[derive(Debug, Clone)]
pub struct JsonRpcError {
    pub code: i64,
    pub message: String,
    pub data: Option<String>,
}

/// The decimal form of a signed number, with `-` before a negative one.
pub open spec fn signed_decimal(n: int) -> Seq<char> {
    if n < 0 {
        seq!['-'] + decimal((-n) as nat)
    } else {
        decimal(n as nat)
    }
}

/// The error for an answer that carries another id than the request.
pub open spec fn skill_id_mismatch_text(got: u64, expected: u64) -> Seq<char> {
    "Response id "@ + decimal(got as nat) + " doesn't match request id "@ + decimal(expected as nat)
}

/// The error for an answer that reports an error.
pub open spec fn skill_error_text(code: i64, message: Seq<char>) -> Seq<char> {
    "Bridge RPC error (code "@ + signed_decimal(code as int) + "): "@ + message
}

fn signed_decimal_string(n: i64) -> (r: String)
    ensures
        r@ == signed_decimal(n as int),
{
    if n < 0 {
        let m: u64 = ((-(n + 1)) as u64) + 1;
        let mut s = "-".to_owned();
        append_str(&mut s, string_of(decimal_chars_u64(m).as_slice()).as_str());
        proof {
            reveal_strlit("-");
            assert("-"@ =~= seq!['-']);
        }
        s
    } else {
        string_of(decimal_chars_u64(n as u64).as_slice())
    }
}

/// Whether an answer of the skills bridge settles the request `expected_id`:
/// it must carry that id, no error, and a result.
pub fn check_skill_reply(expected_id: u64, got_id: u64, error: Option<&JsonRpcError>, has_result: bool) -> (r: Result<(), String>)
    ensures
        got_id != expected_id ==> (r matches Err(e) && e@ == skill_id_mismatch_text(got_id, expected_id)),
        got_id == expected_id ==> match error {
            Some(err) => r matches Err(e) && e@ == skill_error_text(err.code, err.message@),
            None => if has_result {
                r is Ok
            } else {
                r matches Err(e) && e@ == "Bridge response missing result field"@
            },
        },
{
    if got_id != expected_id {
        let mut e = "Response id ".to_owned();
        append_str(&mut e, string_of(decimal_chars_u64(got_id).as_slice()).as_str());
        append_str(&mut e, " doesn't match request id ");
        append_str(&mut e, string_of(decimal_chars_u64(expected_id).as_slice()).as_str());
        return Err(e);
    }
    match error {
        Some(err) => {
            let mut e = "Bridge RPC error (code ".to_owned();
            append_str(&mut e, signed_decimal_string(err.code).as_str());
            append_str(&mut e, "): ");
            append_str(&mut e, err.message.as_str());
            Err(e)
        },
        None => if has_result {
            Ok(())
        } else {
            Err("Bridge response missing result field".to_owned())
        },
    }
}

} // verus!
