use vstd::prelude::*;

verus! {

/// HTTP verb of a request.
#[derive(PartialEq, Eq, Structural, Clone, Copy, Debug)]
pub enum Method {
    Get,
    Head,
    Post,
    Put,
    Delete,
}

pub open spec fn method_name(m: Method) -> Seq<char> {
    match m {
        Method::Get => "GET"@,
        Method::Head => "HEAD"@,
        Method::Post => "POST"@,
        Method::Put => "PUT"@,
        Method::Delete => "DELETE"@,
    }
}

impl Method {
    /// The verb as it goes on the request line.
    pub fn as_str(&self) -> (r: &'static str)
        ensures
            r@ == method_name(*self),
    {
        match self {
            Method::Get => "GET",
            Method::Head => "HEAD",
            Method::Post => "POST",
            Method::Put => "PUT",
            Method::Delete => "DELETE",
        }
    }

    /// The verb as an owned string.
    pub fn to_string(&self) -> (r: String)
        ensures
            r@ == method_name(*self),
    {
        String::from_str(self.as_str())
    }

    /// The handle options that select this verb.
    pub fn setup_options(&self) -> (r: Vec<HandleOption>)
        ensures
            r@ == method_steps(*self),
    {
        match self {
            Method::Get => vec![HandleOption::HttpGet(true)],
            Method::Head => vec![
                HandleOption::HttpGet(true),
                HandleOption::CustomRequest(Method::Head),
                HandleOption::NoBody(true),
            ],
            Method::Post => vec![HandleOption::CustomRequest(Method::Post)],
            Method::Put => vec![HandleOption::CustomRequest(Method::Put)],
            Method::Delete => vec![HandleOption::CustomRequest(Method::Delete)],
        }
    }
}

/// One option set on a transfer handle.
#[derive(PartialEq, Eq, Structural, Clone, Copy, Debug)]
pub enum HandleOption {
    /// Plain GET with a response body.
    HttpGet(bool),
    /// The verb string sent in place of the default one.
    CustomRequest(Method),
    /// Ask for no response body.
    NoBody(bool),
    /// Diagnostic output of the transfer.
    Verbose(bool),
    /// The request carries a body read through the upload callback.
    Upload(bool),
    /// Declared size of the upload body, in bytes.
    InFileSize(u64),
}

/// Options that select a verb on a freshly reset handle.
pub open spec fn method_steps(m: Method) -> Seq<HandleOption> {
    match m {
        Method::Get => seq![HandleOption::HttpGet(true)],
        Method::Head => seq![
            HandleOption::HttpGet(true),
            HandleOption::CustomRequest(Method::Head),
            HandleOption::NoBody(true),
        ],
        Method::Post => seq![HandleOption::CustomRequest(Method::Post)],
        Method::Put => seq![HandleOption::CustomRequest(Method::Put)],
        Method::Delete => seq![HandleOption::CustomRequest(Method::Delete)],
    }
}

/// Options that announce an upload body: the upload flag and the body's
/// exact length; none without a body.
pub open spec fn body_steps(body: Option<Seq<u8>>) -> Seq<HandleOption> {
    match body {
        None => Seq::empty(),
        Some(b) => seq![HandleOption::Upload(true), HandleOption::InFileSize(b.len() as u64)],
    }
}

pub open spec fn opt_body_view(body: Option<Vec<u8>>) -> Option<Seq<u8>> {
    match body {
        Some(b) => Some(b@),
        None => None,
    }
}

/// The options that announce `body` to the handle.
pub fn body_options(body: &Option<Vec<u8>>) -> (r: Vec<HandleOption>)
    ensures
        r@ == body_steps(opt_body_view(*body)),
{
    match body {
        None => Vec::new(),
        Some(b) => vec![HandleOption::Upload(true), HandleOption::InFileSize(b.len() as u64)],
    }
}

} // verus!
