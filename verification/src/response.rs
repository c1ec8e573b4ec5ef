//! The response normalizer: maps each pipeline outcome onto the fixed JSON
//! envelope and an HTTP status code. A confirmed outcome is 200 success; an
//! empty result and every pipeline failure are 500; a malformed input that
//! never reached dispatch is the client's fault and is 400.

use crate::errors::PipelineError;
use crate::models::JsonResponse;
use vstd::prelude::*;

verus! {

/// One outcome of a pipeline run: the confirmed payload (a receipt or a
/// balance text), an empty result, or a failure message.
pub enum OperationOutcome {
    /// The call was included or answered; the payload is the receipt or the
    /// balance as text.
    Confirmed(String),
    /// The call returned nothing.
    EmptyResult,
    /// The pipeline failed; the message says why.
    Failure(String),
}

/// An HTTP reply: a status code and the JSON envelope.
pub struct HttpReply {
    pub code: u16,
    pub body: JsonResponse,
}

/// The HTTP status code an outcome maps to.
pub open spec fn response_code_of(o: OperationOutcome) -> int {
    if o is Confirmed {
        200
    } else {
        500
    }
}

/// The envelope status word an outcome maps to.
pub open spec fn response_status_of(o: OperationOutcome) -> Seq<char> {
    match o {
        OperationOutcome::Confirmed(_) => "success"@,
        OperationOutcome::EmptyResult => "error"@,
        OperationOutcome::Failure(_) => "exception"@,
    }
}

/// The envelope message an outcome maps to.
pub open spec fn response_message_of(o: OperationOutcome) -> Seq<char> {
    match o {
        OperationOutcome::Confirmed(p) => p@,
        OperationOutcome::EmptyResult => "Method returned nothing"@,
        OperationOutcome::Failure(m) => m@,
    }
}

/// Normalizes one pipeline outcome into the envelope: Confirmed maps to
/// 200 success with the payload, EmptyResult to 500 error with a fixed text,
/// Failure to 500 exception with the failure's message.
pub fn create_response(outcome: &OperationOutcome) -> (r: HttpReply)
    ensures
        r.code == response_code_of(*outcome),
        r.body.status@ == response_status_of(*outcome),
        r.body.message matches Some(m) && m@ == response_message_of(*outcome),
{
    match outcome {
        OperationOutcome::Confirmed(p) => HttpReply {
            code: 200,
            body: JsonResponse { status: "success".to_owned(), message: Some(p.clone()) },
        },
        OperationOutcome::EmptyResult => HttpReply {
            code: 500,
            body: JsonResponse {
                status: "error".to_owned(),
                message: Some("Method returned nothing".to_owned()),
            },
        },
        OperationOutcome::Failure(m) => HttpReply {
            code: 500,
            body: JsonResponse { status: "exception".to_owned(), message: Some(m.clone()) },
        },
    }
}

/// The immediate reply for an error that stops a request before dispatch:
/// a malformed input is the client's fault and maps to 400 with status
/// "error"; any other pipeline error is flattened like a dispatch failure,
/// 500 with status "exception". The message is always the error's text.
pub fn reply_for_error(e: &PipelineError) -> (r: HttpReply)
    ensures
        e is ParseError ==> r.code == 400 && r.body.status@ == "error"@,
        !(e is ParseError) ==> r.code == 500 && r.body.status@ == "exception"@,
        r.body.message matches Some(m) && m@ == e.spec_message(),
{
    match e {
        PipelineError::ParseError(m) => HttpReply {
            code: 400,
            body: JsonResponse { status: "error".to_owned(), message: Some(m.clone()) },
        },
        _ => HttpReply {
            code: 500,
            body: JsonResponse { status: "exception".to_owned(), message: Some(e.message()) },
        },
    }
}

/// A pipeline failure of any kind yields HTTP 500 with a nonempty message,
/// and a pipeline success yields HTTP 200 with status "success". (A Failure
/// outcome carries the text of the error it flattens, so the claim asks that
/// that text be nonempty; every fixed text of the library is.)
pub proof fn lemma_normalizer_statuses(o: OperationOutcome)
    requires
        o matches OperationOutcome::Failure(m) ==> m@.len() > 0,
    ensures
        !(o is Confirmed) ==> response_code_of(o) == 500 && response_message_of(o).len() > 0,
        o is Confirmed ==> response_code_of(o) == 200 && response_status_of(o) == "success"@,
{
    reveal_strlit("Method returned nothing");
}

} // verus!
