use vstd::prelude::*;
use curl::easy::List;
use crate::body::BodyReader;
use crate::handle::{opt_settings, Handle, Setting};
use crate::method::{body_options, body_steps, method_steps, opt_body_view, HandleOption, Method};
use crate::native::list_lines;
use crate::response::{Error, Response};

verus! {

/// The header line that every request carries.
pub const USER_AGENT: &'static str = "User-Agent: anyshortcut-cli/0.0.1";

/// Text that can stand in a header line: nothing that would end the line
/// early or cut it short on the native side.
pub open spec fn header_text_ok(s: Seq<char>) -> bool {
    forall|i: int| 0 <= i < s.len() ==> s[i] != '\n' && s[i] != '\r' && s[i] != '\0'
}

/// The line that a header `key` with `value` becomes.
pub open spec fn header_line(key: Seq<char>, value: Seq<char>) -> Seq<char> {
    key + ": "@ + value
}

/// Whether `s` holds no line break and no NUL.
pub fn is_header_text(s: &str) -> (r: bool)
    ensures
        r == header_text_ok(s@),
{
    let n = s.unicode_len();
    let mut i: usize = 0;
    while i < n
        invariant
            n == s@.len(),
            i <= n,
            forall|k: int| 0 <= k < i ==> s@[k] != '\n' && s@[k] != '\r' && s@[k] != '\0',
        decreases n - i,
    {
        let c = s.get_char(i);
        if c == '\n' || c == '\r' || c == '\0' {
            return false;
        }
        i = i + 1;
    }
    true
}

/// The text of each line, in order.
pub open spec fn lines_view(lines: Seq<String>) -> Seq<Seq<char>> {
    lines.map_values(|h: String| h@)
}

/// What a request for `method` on `url` sets on a freshly reset handle.
pub open spec fn request_settings(method: Method, url: Seq<char>) -> Seq<Setting> {
    opt_settings(method_steps(method)).push(Setting::Url(url))
}

/// What is set just before the transfer: diagnostics, the header lines,
/// then for a body the upload flag and its exact size.
pub open spec fn transfer_settings(headers: Seq<Seq<char>>, body: Option<Seq<u8>>) -> Seq<Setting> {
    seq![Setting::Opt(HandleOption::Verbose(true)), Setting::Headers(headers)] + opt_settings(
        body_steps(body),
    )
}

/// Without a body the upload path is never configured: neither the upload
/// flag nor an upload size is set before the transfer.
pub proof fn lemma_no_body_never_uploads(headers: Seq<Seq<char>>)
    ensures
        forall|b: bool| !transfer_settings(headers, None).contains(Setting::Opt(HandleOption::Upload(b))),
        forall|n: u64|
            !transfer_settings(headers, None).contains(Setting::Opt(HandleOption::InFileSize(n))),
{
    assert(transfer_settings(headers, None) =~= seq![
        Setting::Opt(HandleOption::Verbose(true)),
        Setting::Headers(headers),
    ]);
}

/// With a body the upload flag is set and the upload size declared is
/// exactly the body's length, after the header lines.
pub proof fn lemma_body_sets_upload_size(headers: Seq<Seq<char>>, body: Seq<u8>)
    requires
        body.len() <= u64::MAX,
    ensures
        transfer_settings(headers, Some(body)) == seq![
            Setting::Opt(HandleOption::Verbose(true)),
            Setting::Headers(headers),
            Setting::Opt(HandleOption::Upload(true)),
            Setting::Opt(HandleOption::InFileSize(body.len() as u64)),
        ],
        (body.len() as u64) as int == body.len(),
{
    assert(transfer_settings(headers, Some(body)) =~= seq![
        Setting::Opt(HandleOption::Verbose(true)),
        Setting::Headers(headers),
        Setting::Opt(HandleOption::Upload(true)),
        Setting::Opt(HandleOption::InFileSize(body.len() as u64)),
    ]);
}

/// Builds the native header list from the lines, in order; fails where a
/// line holds a NUL.
pub fn build_header_list(lines: &Vec<String>) -> (r: Result<List, Error>)
    ensures
        r is Err <==> exists|i: int| 0 <= i < lines@.len() && lines@[i]@.contains('\0'),
        r matches Ok(l) ==> list_lines(l) == lines_view(lines@),
{
    let mut list = List::new();
    let mut i: usize = 0;
    while i < lines.len()
        invariant
            i <= lines@.len(),
            forall|k: int| 0 <= k < i ==> !lines@[k]@.contains('\0'),
            list_lines(list) == lines_view(lines@.subrange(0, i as int)),
        decreases lines@.len() - i,
    {
        match list.append(lines[i].as_str()) {
            Ok(()) => {},
            Err(e) => {
                return Err(Error::from(e));
            },
        }
        i = i + 1;
        assert(lines_view(lines@.subrange(0, i as int)) =~= lines_view(
            lines@.subrange(0, i - 1),
        ).push(lines@[i - 1]@));
    }
    assert(lines@.subrange(0, lines@.len() as int) =~= lines@);
    Ok(list)
}

/// Selects the verb for `method` and the URL on the handle.
pub fn configure(handle: &mut Handle, method: Method, url: &str) -> (r: Result<(), Error>)
    ensures
        r is Ok ==> final(handle).settings() == old(handle).settings() + request_settings(
            method,
            url@,
        ),
        final(handle).transfers() == old(handle).transfers(),
{
    let options = method.setup_options();
    handle.set_options(&options)?;
    handle.set_url(url)?;
    assert(old(handle).settings() + request_settings(method, url@) =~= (old(handle).settings()
        + opt_settings(method_steps(method))).push(Setting::Url(url@)));
    Ok(())
}

/// Sets diagnostics, installs the header lines in order, announces the body
/// if there is one, runs the transfer and collects the response. The
/// transfer, if it runs, is recorded with the configuration in force; an
/// HTTP error status is an ordinary response, not an `Error`.
pub fn finish(handle: &mut Handle, headers: Vec<String>, body: Option<Vec<u8>>) -> (r: Result<
    Response,
    Error,
>)
    ensures
        final(handle).transfers() == old(handle).transfers() || final(handle).transfers()
            == old(handle).transfers().push(
            old(handle).settings() + transfer_settings(lines_view(headers@), opt_body_view(body)),
        ),
        r matches Ok(resp) ==> {
            &&& final(handle).transfers() == old(handle).transfers().push(
                old(handle).settings() + transfer_settings(
                    lines_view(headers@),
                    opt_body_view(body),
                ),
            )
            &&& resp.spec_body() is Some
        },
{
    let ghost expected = old(handle).settings() + transfer_settings(
        lines_view(headers@),
        opt_body_view(body),
    );
    handle.set_option(HandleOption::Verbose(true))?;
    let list = build_header_list(&headers)?;
    handle.set_headers(list)?;
    let steps = body_options(&body);
    handle.set_options(&steps)?;
    assert(handle.settings() =~= expected);
    let upload = match body {
        Some(b) => b,
        None => Vec::new(),
    };
    let mut reader = BodyReader::new(upload);
    let mut received: Vec<u8> = Vec::new();
    let mut lines: Vec<String> = Vec::new();
    handle.perform(&mut reader, &mut received, &mut lines)?;
    let status = handle.response_code()?;
    Ok(Response::new(status, lines, Some(received)))
}

/// One request being configured on a borrowed handle. It is consumed by
/// `send`.
pub struct Request<'a> {
    handle: &'a mut Handle,
    url: String,
    headers: Vec<String>,
    body: Option<Vec<u8>>,
}

impl<'a> Request<'a> {
    /// The URL the handle was pointed at.
    pub closed spec fn spec_url(&self) -> Seq<char> {
        self.url@
    }

    /// What is set on the borrowed handle so far.
    pub closed spec fn spec_settings(&self) -> Seq<Setting> {
        self.handle.settings()
    }

    /// The borrow of the handle this request configures.
    pub closed spec fn handle_ref(self) -> &'a mut Handle {
        self.handle
    }

    /// The transfers the borrowed handle has run.
    pub closed spec fn spec_transfers(&self) -> Seq<Seq<Setting>> {
        self.handle.transfers()
    }

    /// The header lines that will go out, in order.
    pub closed spec fn spec_headers(&self) -> Seq<Seq<char>> {
        lines_view(self.headers@)
    }

    pub closed spec fn spec_body(&self) -> Option<Seq<u8>> {
        opt_body_view(self.body)
    }

    /// Selects the verb and the URL on the handle. The header list starts
    /// with the fixed User-Agent line.
    pub fn new(handle: &'a mut Handle, method: Method, url: &str) -> (r: Result<Request<'a>, Error>)
        ensures
            r matches Ok(q) ==> {
                &&& q.spec_url() == url@
                &&& q.spec_settings() == old(handle).settings() + request_settings(method, url@)
                &&& q.spec_transfers() == old(handle).transfers()
                &&& q.spec_headers() == seq![USER_AGENT@]
                &&& q.spec_body() is None
            },
    {
        let headers = vec![String::from_str(USER_AGENT)];
        configure(handle, method, url)?;
        let q = Request { handle, url: String::from_str(url), headers, body: None };
        assert(q.spec_headers() =~= seq![USER_AGENT@]);
        Ok(q)
    }

    /// Appends the line "key: value" to the outgoing headers. Fails, leaving
    /// nothing half-built, where the key or the value holds a line break or a
    /// NUL.
    pub fn with_header(self, key: &str, value: &str) -> (r: Result<Request<'a>, Error>)
        ensures
            r is Err <==> !(header_text_ok(key@) && header_text_ok(value@)),
            r matches Ok(q) ==> {
                &&& q.spec_headers() == self.spec_headers().push(header_line(key@, value@))
                &&& q.spec_url() == self.spec_url()
                &&& q.spec_settings() == self.spec_settings()
                &&& q.spec_transfers() == self.spec_transfers()
                &&& q.spec_body() == self.spec_body()
            },
    {
        if !is_header_text(key) || !is_header_text(value) {
            return Err(Error::new());
        }
        let mut line = String::from_str(key);
        line.append(": ");
        line.append(value);
        let mut q = self;
        let ghost before = q.headers@;
        q.headers.push(line);
        assert(lines_view(q.headers@) =~= lines_view(before).push(header_line(key@, value@)));
        Ok(q)
    }

    /// Attaches a body to upload with the request.
    pub fn with_body(self, body: Vec<u8>) -> (r: Request<'a>)
        ensures
            r.spec_body() == Some(body@),
            r.spec_headers() == self.spec_headers(),
            r.spec_url() == self.spec_url(),
            r.spec_settings() == self.spec_settings(),
            r.spec_transfers() == self.spec_transfers(),
    {
        let mut q = self;
        q.body = Some(body);
        q
    }

    pub fn url(&self) -> (r: &str)
        ensures
            r@ == self.spec_url(),
    {
        self.url.as_str()
    }

    pub fn headers(&self) -> (r: &Vec<String>)
        ensures
            lines_view(r@) == self.spec_headers(),
    {
        &self.headers
    }

    /// Performs the transfer on the borrowed handle, as `finish` does with
    /// this request's header lines and body.
    pub fn send(self) -> (r: Result<Response, Error>)
        ensures
            final(self.handle_ref()).transfers() == self.spec_transfers() || final(self.handle_ref()).transfers()
                == self.spec_transfers().push(
                self.spec_settings() + transfer_settings(self.spec_headers(), self.spec_body()),
            ),
            r matches Ok(resp) ==> {
                &&& final(self.handle_ref()).transfers() == self.spec_transfers().push(
                    self.spec_settings() + transfer_settings(self.spec_headers(), self.spec_body()),
                )
                &&& resp.spec_body() is Some
            },
    {
        let Request { handle, url: _, headers, body } = self;
        finish(handle, headers, body)
    }
}

} // verus!
