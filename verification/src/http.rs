use vstd::prelude::*;

verus! {

/// The methods the downstream client issues against the three backend services.
pub enum RequestMethod {
    GET,
    POST,
    DELETE,
}

/// A raw downstream response: the status code, the body text and the response
/// headers as name/value pairs.
pub struct Response {
    pub code: u16,
    pub body: String,
    pub header: Vec<(String, String)>,
}

/// What a typed downstream call produced, as seen by the orchestration logic.
///
/// `Success` carries the decoded body of a response whose code was one of
/// 200, 201, 204. `Rejected` stands for a response with any other code, and
/// `Transport` for a connection, protocol or decode failure.
pub enum FetchOutcome<T> {
    Success(T),
    Rejected,
    Transport,
}

/// The client-facing error taxonomy of the gateway's read-side handlers:
/// `Unauthorized` when the auth gate fails, `NotFound` for a downstream
/// rejection, `Internal` for a transport-level failure.
#[derive(Clone, Copy, Debug, PartialEq, Eq, Structural)]
pub enum GateError {
    Unauthorized,
    NotFound,
    Internal,
}

impl GateError {
    /// The HTTP status the gateway answers with for each error kind.
    pub fn http_status(&self) -> (s: u16)
        ensures
            *self == GateError::Unauthorized ==> s == 401,
            *self == GateError::NotFound ==> s == 404,
            *self == GateError::Internal ==> s == 500,
    {
        match self {
            GateError::Unauthorized => 401,
            GateError::NotFound => 404,
            GateError::Internal => 500,
        }
    }
}

/// The downstream client treats exactly the codes 200, 201 and 204 as success;
/// every other code is classified as a rejection.
pub fn is_success_code(code: u16) -> (r: bool)
    ensures
        r == (code == 200 || code == 201 || code == 204),
{
    code == 200 || code == 201 || code == 204
}

/// Whether a raw response may have its body decoded at all: the typed client
/// decodes only the bodies of successful responses and rejects the rest
/// without looking at them.
pub fn response_is_success(r: &Response) -> (b: bool)
    ensures
        b == (r.code == 200 || r.code == 201 || r.code == 204),
{
    is_success_code(r.code)
}

} // verus!
