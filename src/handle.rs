use vstd::prelude::*;
use curl::easy::{Easy, List};
use crate::body::BodyReader;
use crate::method::HandleOption;
use crate::native::{list_lines, perform_transfer};
use crate::response::Error;

verus! {

/// One piece of configuration put on a transfer handle.
pub enum Setting {
    Opt(HandleOption),
    Url(Seq<char>),
    Headers(Seq<Seq<char>>),
}

/// A reusable curl transfer handle. Every configuration call goes through
/// its methods, so it knows what has been set since the last reset and what
/// was in force at each transfer it ran.
pub struct Handle {
    easy: Easy,
    settings: Ghost<Seq<Setting>>,
    transfers: Ghost<Seq<Seq<Setting>>>,
}

pub open spec fn opt_settings(opts: Seq<HandleOption>) -> Seq<Setting> {
    opts.map_values(|o: HandleOption| Setting::Opt(o))
}

impl Handle {
    /// What has been set on the handle since it was created or last reset,
    /// in order.
    pub closed spec fn settings(&self) -> Seq<Setting> {
        self.settings@
    }

    /// The configuration in force at each transfer run on the handle, oldest
    /// first.
    pub closed spec fn transfers(&self) -> Seq<Seq<Setting>> {
        self.transfers@
    }

    pub fn new() -> (r: Handle)
        ensures
            r.settings() == Seq::<Setting>::empty(),
            r.transfers() == Seq::<Seq<Setting>>::empty(),
    {
        Handle { easy: Easy::new(), settings: Ghost(Seq::empty()), transfers: Ghost(Seq::empty()) }
    }

    /// Clears every option, so nothing of an earlier request stays on the
    /// handle.
    pub fn reset(&mut self)
        ensures
            final(self).settings() == Seq::<Setting>::empty(),
            final(self).transfers() == old(self).transfers(),
    {
        self.easy.reset();
        self.settings = Ghost(Seq::empty());
    }

    /// Sets one option; fails where curl refuses it.
    pub fn set_option(&mut self, opt: HandleOption) -> (r: Result<(), Error>)
        ensures
            r is Ok ==> final(self).settings() == old(self).settings().push(Setting::Opt(opt)),
            r is Err ==> final(self).settings() == old(self).settings(),
            final(self).transfers() == old(self).transfers(),
    {
        let res = match opt {
            HandleOption::HttpGet(on) => self.easy.get(on),
            HandleOption::CustomRequest(m) => self.easy.custom_request(m.as_str()),
            HandleOption::NoBody(on) => self.easy.nobody(on),
            HandleOption::Verbose(on) => self.easy.verbose(on),
            HandleOption::Upload(on) => self.easy.upload(on),
            HandleOption::InFileSize(n) => self.easy.in_filesize(n),
        };
        match res {
            Ok(()) => {
                self.settings = Ghost(self.settings@.push(Setting::Opt(opt)));
                Ok(())
            },
            Err(e) => Err(Error::from(e)),
        }
    }

    /// Sets each option in order, stopping at the first that curl refuses.
    pub fn set_options(&mut self, opts: &Vec<HandleOption>) -> (r: Result<(), Error>)
        ensures
            r is Ok ==> final(self).settings() == old(self).settings() + opt_settings(opts@),
            final(self).transfers() == old(self).transfers(),
    {
        let mut i: usize = 0;
        while i < opts.len()
            invariant
                i <= opts@.len(),
                self.settings() == old(self).settings() + opt_settings(opts@.subrange(0, i as int)),
                self.transfers() == old(self).transfers(),
            decreases opts@.len() - i,
        {
            self.set_option(opts[i])?;
            i = i + 1;
            assert(opts@.subrange(0, i as int) =~= opts@.subrange(0, i - 1).push(opts@[i - 1]));
            assert(opt_settings(opts@.subrange(0, i as int)) =~= opt_settings(
                opts@.subrange(0, i - 1),
            ).push(Setting::Opt(opts@[i - 1])));
        }
        assert(opts@.subrange(0, opts@.len() as int) =~= opts@);
        Ok(())
    }

    /// Points the handle at `url`.
    pub fn set_url(&mut self, url: &str) -> (r: Result<(), Error>)
        ensures
            r is Ok ==> final(self).settings() == old(self).settings().push(Setting::Url(url@)),
            r is Err ==> final(self).settings() == old(self).settings(),
            final(self).transfers() == old(self).transfers(),
    {
        match self.easy.url(url) {
            Ok(()) => {
                self.settings = Ghost(self.settings@.push(Setting::Url(url@)));
                Ok(())
            },
            Err(e) => Err(Error::from(e)),
        }
    }

    /// Installs the header list for the next transfer.
    pub fn set_headers(&mut self, list: List) -> (r: Result<(), Error>)
        ensures
            r is Ok ==> final(self).settings() == old(self).settings().push(
                Setting::Headers(list_lines(list)),
            ),
            r is Err ==> final(self).settings() == old(self).settings(),
            final(self).transfers() == old(self).transfers(),
    {
        let ghost lines = list_lines(list);
        match self.easy.http_headers(list) {
            Ok(()) => {
                self.settings = Ghost(self.settings@.push(Setting::Headers(lines)));
                Ok(())
            },
            Err(e) => Err(Error::from(e)),
        }
    }

    /// Runs one blocking transfer with the configuration in force, streaming
    /// the body out of `reader` and collecting what comes back.
    pub fn perform(&mut self, reader: &mut BodyReader, body: &mut Vec<u8>, headers: &mut Vec<String>) -> (r: Result<(), Error>)
        requires
            old(reader).wf(),
        ensures
            final(self).settings() == old(self).settings(),
            final(self).transfers() == old(self).transfers().push(old(self).settings()),
            final(reader).wf(),
            final(reader).spec_body() == old(reader).spec_body(),
            old(body)@.is_prefix_of(final(body)@),
            old(headers)@.is_prefix_of(final(headers)@),
    {
        let res = perform_transfer(&mut self.easy, reader, body, headers);
        self.transfers = Ghost(self.transfers@.push(self.settings@));
        match res {
            Ok(()) => Ok(()),
            Err(e) => Err(Error::from(e)),
        }
    }

    /// The status code of the last transfer.
    pub fn response_code(&self) -> (r: Result<u32, Error>) {
        match self.easy.response_code() {
            Ok(s) => Ok(s),
            Err(e) => Err(Error::from(e)),
        }
    }
}

} // verus!
