//! The error boundary: turns the foreign return discipline into typed results.
//!
//! The host copies the foreign message buffer into an owned `String` right
//! after the failing call, before any other foreign call can overwrite it, and
//! hands the copy here.
use vstd::prelude::*;

use crate::error::BridgeStanError;

verus! {

/// The text of a captured foreign message; empty when the foreign side gave none.
pub open spec fn message_text(message: Option<String>) -> Seq<char> {
    match message {
        Some(m) => m@,
        None => Seq::empty(),
    }
}

/// Whether `marker` occurs in `text` as a contiguous run.
pub open spec fn contains(text: Seq<char>, marker: Seq<char>) -> bool {
    exists|i: int| 0 <= i <= text.len() - marker.len() && #[trigger] text.subrange(i, i + marker.len()) == marker
}

fn owned_message(message: Option<String>) -> (r: String)
    ensures
        r@ == message_text(message),
{
    match message {
        Some(m) => m,
        None => String::new(),
    }
}

/// The outcome of a foreign construction: `produced` tells whether the
/// constructor returned a model, `message` is what its error accessor gave.
pub fn construct_result(produced: bool, message: Option<String>) -> (r: Result<(), BridgeStanError>)
    ensures
        r is Ok <==> produced,
        !produced ==> r is Err && r->Err_0 is ConstructFailed
            && r->Err_0->ConstructFailed_0@ == message_text(message),
        // a failure reports the foreign diagnostic unchanged: every marker in
        // the foreign message is found in the error's message
        !produced ==> forall|marker: Seq<char>|
            #[trigger] contains(message_text(message), marker)
                ==> contains(r->Err_0->ConstructFailed_0@, marker),
{
    if produced {
        Ok(())
    } else {
        Err(BridgeStanError::ConstructFailed(owned_message(message)))
    }
}

/// The outcome of a foreign evaluation: `status` is its return code, zero on
/// success; `message` is what its error accessor gave.
pub fn eval_result(status: i32, message: Option<String>) -> (r: Result<(), BridgeStanError>)
    ensures
        r is Ok <==> status == 0,
        status != 0 ==> r is Err && r->Err_0 is EvaluationFailed
            && r->Err_0->EvaluationFailed_0@ == message_text(message),
{
    if status == 0 {
        Ok(())
    } else {
        Err(BridgeStanError::EvaluationFailed(owned_message(message)))
    }
}

} // verus!
