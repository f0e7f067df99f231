use vstd::prelude::*;
use crate::handle::{Handle, Setting};
use crate::method::{HandleOption, Method};
use crate::request::{
    configure, finish, request_settings, transfer_settings, Request, USER_AGENT,
};
use crate::response::{Error, Response};

verus! {

/// An HTTP client for one API base URL. It owns one transfer handle and
/// reuses it for every request; a request borrows it exclusively, so a
/// second request cannot start while one is being built or sent.
pub struct Client {
    shared_handle: Handle,
    base_url: String,
    token: String,
}

impl Client {
    pub closed spec fn spec_base_url(&self) -> Seq<char> {
        self.base_url@
    }

    pub closed spec fn spec_token(&self) -> Seq<char> {
        self.token@
    }

    /// The configuration in force at each transfer the client has run,
    /// oldest first.
    pub closed spec fn spec_transfers(&self) -> Seq<Seq<Setting>> {
        self.shared_handle.transfers()
    }

    /// Stores the base URL and the token, unchecked, with a fresh handle.
    pub fn new(base_url: &str, token: &str) -> (r: Client)
        ensures
            r.spec_base_url() == base_url@,
            r.spec_token() == token@,
            r.spec_transfers() == Seq::<Seq<Setting>>::empty(),
    {
        Client {
            shared_handle: Handle::new(),
            base_url: String::from_str(base_url),
            token: String::from_str(token),
        }
    }

    pub fn base_url(&self) -> (r: &str)
        ensures
            r@ == self.spec_base_url(),
    {
        self.base_url.as_str()
    }

    pub fn token(&self) -> (r: &str)
        ensures
            r@ == self.spec_token(),
    {
        self.token.as_str()
    }

    /// The base URL followed by the endpoint, with nothing put between them.
    pub fn request_url(&self, endpoint: &str) -> (r: String)
        ensures
            r@ == self.spec_base_url() + endpoint@,
    {
        let mut url = self.base_url.clone();
        url.append(endpoint);
        url
    }

    /// Resets the handle, so that nothing of an earlier request stays on it,
    /// and starts a request for `method` on the base URL followed by the
    /// endpoint.
    pub fn request(&mut self, endpoint: &str, method: Method) -> (r: Result<Request<'_>, Error>)
        ensures
            final(self).spec_base_url() == old(self).spec_base_url(),
            final(self).spec_token() == old(self).spec_token(),
            r matches Ok(q) ==> {
                &&& q.spec_url() == old(self).spec_base_url() + endpoint@
                &&& q.spec_settings() == request_settings(
                    method,
                    old(self).spec_base_url() + endpoint@,
                )
                &&& q.spec_transfers() == old(self).spec_transfers()
                &&& q.spec_headers() == seq![USER_AGENT@]
                &&& q.spec_body() is None
            },
    {
        let url = self.request_url(endpoint);
        self.shared_handle.reset();
        Request::new(&mut self.shared_handle, method, url.as_str())
    }

    /// A GET of the endpoint, sent at once on the freshly reset handle. If
    /// the transfer runs, its configuration is that of a GET on a new client:
    /// it depends on the base URL and the endpoint alone.
    pub fn get(&mut self, endpoint: &str) -> (r: Result<Response, Error>)
        ensures
            final(self).spec_base_url() == old(self).spec_base_url(),
            final(self).spec_token() == old(self).spec_token(),
            final(self).spec_transfers() == old(self).spec_transfers()
                || final(self).spec_transfers() == old(self).spec_transfers().push(
                get_settings(old(self).spec_base_url() + endpoint@),
            ),
            r matches Ok(resp) ==> {
                &&& final(self).spec_transfers() == old(self).spec_transfers().push(
                    get_settings(old(self).spec_base_url() + endpoint@),
                )
                &&& resp.spec_body() is Some
            },
    {
        let url = self.request_url(endpoint);
        self.shared_handle.reset();
        configure(&mut self.shared_handle, Method::Get, url.as_str())?;
        let headers = vec![String::from_str(USER_AGENT)];
        let ghost hv = headers@;
        assert(crate::request::lines_view(hv) =~= seq![USER_AGENT@]);
        finish(&mut self.shared_handle, headers, None)
    }
}

/// The configuration in force when a GET of `url` is transferred.
pub open spec fn get_settings(url: Seq<char>) -> Seq<Setting> {
    request_settings(Method::Get, url) + transfer_settings(seq![USER_AGENT@], None)
}

/// Whatever ran on the handle before, the configuration of a GET's transfer
/// is exactly: plain GET, the URL, diagnostics, the User-Agent line alone
/// as headers. In particular no custom verb, no body suppression, no upload
/// flag and no upload size.
pub proof fn lemma_get_transfer_is_fresh(url: Seq<char>)
    ensures
        get_settings(url) == seq![
            Setting::Opt(HandleOption::HttpGet(true)),
            Setting::Url(url),
            Setting::Opt(HandleOption::Verbose(true)),
            Setting::Headers(seq![USER_AGENT@]),
        ],
        forall|m: Method| !get_settings(url).contains(Setting::Opt(HandleOption::CustomRequest(m))),
        !get_settings(url).contains(Setting::Opt(HandleOption::NoBody(true))),
        forall|b: bool| !get_settings(url).contains(Setting::Opt(HandleOption::Upload(b))),
        forall|n: u64| !get_settings(url).contains(Setting::Opt(HandleOption::InFileSize(n))),
{
    let s = get_settings(url);
    assert(s =~= seq![
        Setting::Opt(HandleOption::HttpGet(true)),
        Setting::Url(url),
        Setting::Opt(HandleOption::Verbose(true)),
        Setting::Headers(seq![USER_AGENT@]),
    ]);
}

} // verus!
