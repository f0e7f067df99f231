use vstd::prelude::*;
use curl::Error as CurlError;

verus! {

/// Numeric HTTP status code of a response.
pub type HttpStatus = u32;

/// Whether a status code counts as an HTTP-level failure.
pub open spec fn status_failed(status: HttpStatus) -> bool {
    400 <= status <= 600
}

/// What came back from one transfer: the status code, every header line
/// as received (in wire order), and the raw body bytes.
#[derive(Clone, Debug)]
pub struct Response {
    status: HttpStatus,
    headers: Vec<String>,
    body: Option<Vec<u8>>,
}

impl Response {
    pub closed spec fn spec_status(&self) -> HttpStatus {
        self.status
    }

    pub closed spec fn spec_headers(&self) -> Seq<Seq<char>> {
        self.headers@.map_values(|h: String| h@)
    }

    pub closed spec fn spec_body(&self) -> Option<Seq<u8>> {
        match self.body {
            Some(b) => Some(b@),
            None => None,
        }
    }

    pub fn new(status: HttpStatus, headers: Vec<String>, body: Option<Vec<u8>>) -> (r: Response)
        ensures
            r.spec_status() == status,
            r.spec_headers() == headers@.map_values(|h: String| h@),
            r.spec_body() == (match body {
                Some(b) => Some(b@),
                None => None,
            }),
    {
        Response { status, headers, body }
    }

    pub fn status(&self) -> (r: HttpStatus)
        ensures
            r == self.spec_status(),
    {
        self.status
    }

    /// True for a status in the inclusive range 400 to 600.
    pub fn failed(&self) -> (r: bool)
        ensures
            r == status_failed(self.spec_status()),
    {
        self.status >= 400 && self.status <= 600
    }

    /// The exact negation of `failed`.
    pub fn ok(&self) -> (r: bool)
        ensures
            r == !status_failed(self.spec_status()),
    {
        !self.failed()
    }

    pub fn headers(&self) -> (r: &Vec<String>)
        ensures
            r@.map_values(|h: String| h@) == self.spec_headers(),
    {
        &self.headers
    }

    pub fn body(&self) -> (r: &Option<Vec<u8>>)
        ensures
            (match *r {
                Some(b) => Some(b@),
                None => None,
            }) == self.spec_body(),
    {
        &self.body
    }
}

/// Failure of a request: configuring the handle, building the header
/// list, or the transfer itself. It carries no payload.
#[derive(Debug)]
pub struct Error {}

/// Classification of failures that callers may want to tell apart.
#[derive(Copy, Clone, Eq, PartialEq, Debug)]
pub enum ErrorKind {
    InvalidToken,
    RequestFailed,
}

impl Error {
    pub fn new() -> (r: Error) {
        Error {}
    }

    /// A short description of the failure.
    pub fn message(&self) -> (r: String)
        ensures
            r@ == "Http error"@,
    {
        String::from_str("Http error")
    }
}

impl From<CurlError> for Error {
    fn from(error: CurlError) -> (r: Error) {
        Error {}
    }
}

impl vstd::std_specs::convert::FromSpecImpl<CurlError> for Error {
    open spec fn obeys_from_spec() -> bool {
        true
    }

    open spec fn from_spec(v: CurlError) -> Error {
        Error {}
    }
}

} // verus!
