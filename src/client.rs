use crate::proof_data::ProofData;
use vstd::prelude::*;
use vstd::string::*;

verus! {

/// The base URL of a service that runs on this machine.
pub const LOCALHOST_URL: &'static str = "http://localhost:3000";

/// A client of the proving service: one reusable HTTP client and the base
/// URL that every endpoint hangs from. Neither changes after construction.
pub struct BbServiceClient {
    client: reqwest::Client,
    base_url: String,
}

impl View for BbServiceClient {
    type V = Seq<char>;

    /// A client is seen as its base URL.
    closed spec fn view(&self) -> Seq<char> {
        self.base_url@
    }
}

impl BbServiceClient {
    /// A client of the service at `base_url`, which is kept as given.
    pub fn new(base_url: String) -> (r: BbServiceClient)
        ensures
            r@ == base_url@,
    {
        BbServiceClient { client: reqwest::Client::new(), base_url }
    }

    /// A client of the service at `http://localhost:3000`.
    pub fn new_localhost() -> (r: BbServiceClient)
        ensures
            r@ == LOCALHOST_URL@,
    {
        BbServiceClient::new(String::from_str(LOCALHOST_URL))
    }

    /// The base URL, as it was given.
    pub fn base_url(&self) -> (r: &str)
        ensures
            r@ == self@,
    {
        self.base_url.as_str()
    }

    /// The HTTP client that carries every call.
    pub fn http(&self) -> &reqwest::Client {
        &self.client
    }

    /// The URL of an endpoint: the base URL followed by `path`.
    pub fn endpoint(&self, path: &str) -> (r: String)
        ensures
            r@ == self@ + path@,
    {
        let mut u = self.base_url.clone();
        u.append(path);
        u
    }

    /// Where proofs are requested: `{base}/prove`.
    pub fn prove_url(&self) -> (r: String)
        ensures
            r@ == self@ + "/prove"@,
    {
        self.endpoint("/prove")
    }

    /// Where proofs are checked: `{base}/verify`.
    pub fn verify_url(&self) -> (r: String)
        ensures
            r@ == self@ + "/verify"@,
    {
        self.endpoint("/verify")
    }

    /// Where the service reports its health: `{base}/health`.
    pub fn health_url(&self) -> (r: String)
        ensures
            r@ == self@ + "/health"@,
    {
        self.endpoint("/health")
    }
}

/// What can go wrong in a call to the service.
#[derive(Debug)]
pub enum BbServiceError {
    /// The transport failed, or a success body did not decode.
    Request(reqwest::Error),
    /// The service answered with a failure status and a well-formed error body.
    Service(String),
    /// The service answered with a failure status and a body of another shape.
    InvalidResponse,
}

/// The body of a failure answer: an error and, perhaps, details.
#[derive(Debug)]
pub struct ErrorResponse {
    pub error: String,
    pub details: Option<String>,
}

/// The body of a successful answer to a proof request.
#[derive(Debug)]
pub struct ProveResponse {
    pub message: String,
    pub proof: ProofData,
}

/// The body of a successful answer to a verification request.
#[derive(Debug)]
pub struct VerifyResponse {
    pub message: String,
    pub is_valid: bool,
}

/// An answer of the service after its body was decoded in the shape that
/// its status calls for.
#[derive(Debug)]
pub enum Reply<T> {
    /// A success status; the body decoded as `T`, or the decoder's error.
    Success(Result<T, reqwest::Error>),
    /// A failure status; the body as an error document, where it had that shape.
    Failure(Option<ErrorResponse>),
}

/// The text of a service error: `"{error}: {details}"`, with absent details
/// written as the empty text.
pub open spec fn service_text(error: Seq<char>, details: Option<Seq<char>>) -> Seq<char> {
    error + ": "@ + match details {
        Some(d) => d,
        None => Seq::empty(),
    }
}

/// The details of an error body as text: absent details read as the empty text.
pub open spec fn details_text(details: Option<String>) -> Seq<char> {
    match details {
        Some(d) => d@,
        None => Seq::empty(),
    }
}

/// `e` is the error that a failure answer with this body stands for.
pub open spec fn is_failure_error(e: BbServiceError, body: Option<ErrorResponse>) -> bool {
    match body {
        None => e is InvalidResponse,
        Some(b) => e matches BbServiceError::Service(m) && m@ == b.error@ + ": "@ + details_text(
            b.details,
        ),
    }
}

/// Writes the text of a service error: the error, a colon and a space, then
/// the details, or nothing where there are none.
pub fn error_message(error: &String, details: &Option<String>) -> (r: String)
    ensures
        r@ == error@ + ": "@ + details_text(*details),
{
    let mut m = error.clone();
    m.append(": ");
    match details {
        Some(d) => m.append(d.as_str()),
        None => {},
    }
    m
}

/// The error that a failure answer stands for: a service error where the
/// body had the error shape, an invalid response where it had not.
pub fn failure_error(body: Option<ErrorResponse>) -> (r: BbServiceError)
    ensures
        is_failure_error(r, body),
{
    match body {
        None => BbServiceError::InvalidResponse,
        Some(b) => BbServiceError::Service(error_message(&b.error, &b.details)),
    }
}

/// The outcome of a proof request, from the service's decoded answer. A
/// success body hands back its proof; a decoder error becomes a request
/// error; a failure answer becomes the error that it stands for.
pub fn prove_outcome(reply: Reply<ProveResponse>) -> (r: Result<ProofData, BbServiceError>)
    ensures
        match reply {
            Reply::Success(Ok(resp)) => r == Ok::<ProofData, BbServiceError>(resp.proof),
            Reply::Success(Err(e)) => r == Err::<ProofData, BbServiceError>(
                BbServiceError::Request(e),
            ),
            Reply::Failure(body) => r matches Err(err) && is_failure_error(err, body),
        },
{
    match reply {
        Reply::Success(Ok(resp)) => Ok(resp.proof),
        Reply::Success(Err(e)) => Err(BbServiceError::Request(e)),
        Reply::Failure(body) => Err(failure_error(body)),
    }
}

/// The outcome of a verification request, from the service's decoded
/// answer. A success body hands back its verdict; a decoder error becomes a
/// request error; a failure answer becomes the error that it stands for.
pub fn verify_outcome(reply: Reply<VerifyResponse>) -> (r: Result<bool, BbServiceError>)
    ensures
        match reply {
            Reply::Success(Ok(resp)) => r == Ok::<bool, BbServiceError>(resp.is_valid),
            Reply::Success(Err(e)) => r == Err::<bool, BbServiceError>(BbServiceError::Request(e)),
            Reply::Failure(body) => r matches Err(err) && is_failure_error(err, body),
        },
{
    match reply {
        Reply::Success(Ok(resp)) => Ok(resp.is_valid),
        Reply::Success(Err(e)) => Err(BbServiceError::Request(e)),
        Reply::Failure(body) => Err(failure_error(body)),
    }
}

} // verus!
