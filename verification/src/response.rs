//! Classifying the transport's result and rendering the outcome line.
//!
//! A transport hands back either a response (status code and body text) or a
//! failure of its own. Exactly one of three outcomes follows: a `200` whose
//! body decodes to an object with a string `file` field is a success; any
//! other status whose body decodes to an object with a string `message`
//! field is a service failure; everything else — the transport's own failure,
//! or a body that does not decode as expected — is a transport failure.

use vstd::prelude::*;

verus! {

/// What the transport handed back: a response with its status code and body
/// text, or a failure with the transport's own description.
pub enum TransportResult {
    Response { status: u16, body: String },
    Failure { detail: String },
}

/// The mathematical content of a transport result.
pub ghost enum TransportResultModel {
    Response { status: u16, body: Seq<char> },
    Failure { detail: Seq<char> },
}

impl View for TransportResult {
    type V = TransportResultModel;

    open spec fn view(&self) -> TransportResultModel {
        match self {
            TransportResult::Response { status, body } => TransportResultModel::Response {
                status: *status,
                body: body@,
            },
            TransportResult::Failure { detail } => TransportResultModel::Failure {
                detail: detail@,
            },
        }
    }
}

/// The three-way classification of one invocation's outcome.
pub enum UploadOutcome {
    Success { file: String },
    ServiceFailure { message: String },
    TransportFailure { detail: String },
}

/// The mathematical content of an outcome.
pub ghost enum UploadOutcomeModel {
    Success { file: Seq<char> },
    ServiceFailure { message: Seq<char> },
    TransportFailure { detail: Seq<char> },
}

impl View for UploadOutcome {
    type V = UploadOutcomeModel;

    open spec fn view(&self) -> UploadOutcomeModel {
        match self {
            UploadOutcome::Success { file } => UploadOutcomeModel::Success { file: file@ },
            UploadOutcome::ServiceFailure { message } => UploadOutcomeModel::ServiceFailure {
                message: message@,
            },
            UploadOutcome::TransportFailure { detail } => UploadOutcomeModel::TransportFailure {
                detail: detail@,
            },
        }
    }
}

/// What `json_string_field` returns: the value of the named top-level string
/// field of the JSON object the text encodes, when the text is such an
/// object and the field holds a string; nothing otherwise.
pub uninterp spec fn json_str_field(text: Seq<char>, field: Seq<char>) -> Option<Seq<char>>;

/// Relies on `serde_json::from_str::<Value>`, `serde_json::Value::get` and
/// the `Value::String` variant: parses the text as JSON and hands out the
/// named top-level field when it is a string. The result depends on the two
/// arguments alone.
#[verifier::external_body]
fn json_string_field(text: &str, field: &str) -> (r: Option<String>)
    ensures
        r is Some <==> json_str_field(text@, field@) is Some,
        r matches Some(s) ==> json_str_field(text@, field@) == Some(s@),
{
    match serde_json::from_str::<serde_json::Value>(text) {
        Ok(v) => match v.get(field) {
            Some(serde_json::Value::String(s)) => Some(s.clone()),
            _ => None,
        },
        Err(_) => None,
    }
}

/// The detail reported when a response body does not decode as expected.
pub open spec fn decode_failure_detail() -> Seq<char> {
    "could not decode the response body"@
}

fn decode_failure_string() -> (s: String)
    ensures
        s@ == decode_failure_detail(),
{
    String::from_str("could not decode the response body")
}

/// The outcome each transport result is classified as.
pub open spec fn interpretation(r: TransportResultModel) -> UploadOutcomeModel {
    match r {
        TransportResultModel::Failure { detail } => UploadOutcomeModel::TransportFailure {
            detail,
        },
        TransportResultModel::Response { status, body } => if status == 200 {
            match json_str_field(body, "file"@) {
                Some(f) => UploadOutcomeModel::Success { file: f },
                None => UploadOutcomeModel::TransportFailure {
                    detail: decode_failure_detail(),
                },
            }
        } else {
            match json_str_field(body, "message"@) {
                Some(m) => UploadOutcomeModel::ServiceFailure { message: m },
                None => UploadOutcomeModel::TransportFailure {
                    detail: decode_failure_detail(),
                },
            }
        },
    }
}

/// Classifies a transport result into exactly one of the three outcomes.
pub fn interpret_response(result: TransportResult) -> (outcome: UploadOutcome)
    ensures
        outcome@ == interpretation(result@),
{
    match result {
        TransportResult::Failure { detail } => UploadOutcome::TransportFailure { detail },
        TransportResult::Response { status, body } => {
            if status == 200 {
                match json_string_field(body.as_str(), "file") {
                    Some(f) => UploadOutcome::Success { file: f },
                    None => UploadOutcome::TransportFailure {
                        detail: decode_failure_string(),
                    },
                }
            } else {
                match json_string_field(body.as_str(), "message") {
                    Some(m) => UploadOutcome::ServiceFailure { message: m },
                    None => UploadOutcome::TransportFailure {
                        detail: decode_failure_string(),
                    },
                }
            }
        },
    }
}

/// The single human-readable line reporting an outcome.
pub open spec fn rendered_line(o: UploadOutcomeModel) -> Seq<char> {
    match o {
        UploadOutcomeModel::Success { file } => file + " is currently processing"@,
        UploadOutcomeModel::ServiceFailure { message } => (
        "An error occurred with the upload request: "@ + message),
        UploadOutcomeModel::TransportFailure { detail } => (
        "An error occurred with the upload request: "@ + detail),
    }
}

/// Renders an outcome as its terminal one-line report.
pub fn render_outcome(outcome: &UploadOutcome) -> (line: String)
    ensures
        line@ == rendered_line(outcome@),
{
    match outcome {
        UploadOutcome::Success { file } => file.clone().concat(" is currently processing"),
        UploadOutcome::ServiceFailure { message } => String::from_str(
            "An error occurred with the upload request: ",
        ).concat(message.as_str()),
        UploadOutcome::TransportFailure { detail } => String::from_str(
            "An error occurred with the upload request: ",
        ).concat(detail.as_str()),
    }
}

/// Law: a transport-level failure is classified as `TransportFailure`,
/// carrying the transport's own description unchanged.
pub proof fn lemma_transport_failure_classified(detail: Seq<char>)
    ensures
        interpretation(TransportResultModel::Failure { detail })
            == (UploadOutcomeModel::TransportFailure { detail }),
{
}

/// Law: a `200` response whose body does not decode to an object with a
/// string `file` field is a transport failure, never a success.
pub proof fn lemma_undecodable_success_body(body: Seq<char>)
    requires
        json_str_field(body, "file"@) is None,
    ensures
        interpretation(TransportResultModel::Response { status: 200, body })
            == (UploadOutcomeModel::TransportFailure { detail: decode_failure_detail() }),
{
}

} // verus!
