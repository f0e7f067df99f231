use vstd::prelude::*;
use crate::body::{append_body, BodyReader};
use curl::Error as CurlError;
use curl::easy::{Easy, List};

verus! {

#[verifier::external_type_specification]
#[verifier::external_body]
pub struct ExEasy(Easy);

#[verifier::external_type_specification]
#[verifier::external_body]
pub struct ExList(List);

#[verifier::external_type_specification]
#[verifier::external_body]
pub struct ExCurlError(CurlError);

/// Relies on curl's `Easy::new`: a fresh handle.
pub assume_specification[ Easy::new ]() -> Easy;

/// Relies on curl's `Easy::reset`: clears every option set on the handle.
pub assume_specification[ Easy::reset ](e: &mut Easy);

/// Relies on curl's `Easy::get`: sets CURLOPT_HTTPGET.
pub assume_specification[ Easy::get ](e: &mut Easy, enable: bool) -> Result<
    (),
    CurlError,
>;

/// Relies on curl's `Easy::custom_request`: sets CURLOPT_CUSTOMREQUEST.
pub assume_specification[ Easy::custom_request ](
    e: &mut Easy,
    request: &str,
) -> Result<(), CurlError>;

/// Relies on curl's `Easy::nobody`: sets CURLOPT_NOBODY.
pub assume_specification[ Easy::nobody ](e: &mut Easy, enable: bool) -> Result<
    (),
    CurlError,
>;

/// Relies on curl's `Easy::url`: sets CURLOPT_URL.
pub assume_specification[ Easy::url ](e: &mut Easy, url: &str) -> Result<
    (),
    CurlError,
>;

/// Relies on curl's `Easy::verbose`: sets CURLOPT_VERBOSE.
pub assume_specification[ Easy::verbose ](e: &mut Easy, verbose: bool) -> Result<
    (),
    CurlError,
>;

/// Relies on curl's `Easy::upload`: sets CURLOPT_UPLOAD.
pub assume_specification[ Easy::upload ](e: &mut Easy, enable: bool) -> Result<
    (),
    CurlError,
>;

/// Relies on curl's `Easy::in_filesize`: sets CURLOPT_INFILESIZE_LARGE.
pub assume_specification[ Easy::in_filesize ](e: &mut Easy, size: u64) -> Result<
    (),
    CurlError,
>;

/// Relies on curl's `Easy::http_headers`: installs the list as CURLOPT_HTTPHEADER.
pub assume_specification[ Easy::http_headers ](
    e: &mut Easy,
    list: List,
) -> Result<(), CurlError>;

/// Relies on curl's `Easy::response_code`: reads CURLINFO_RESPONSE_CODE.
pub assume_specification[ Easy::response_code ](e: &Easy) -> Result<
    u32,
    CurlError,
>;

/// The lines a curl header list holds, in order.
pub uninterp spec fn list_lines(l: List) -> Seq<Seq<char>>;

/// Relies on curl's `List::new`: an empty header list.
pub assume_specification[ List::new ]() -> (r: List)
    ensures
        list_lines(r) == Seq::<Seq<char>>::empty(),
;

/// Relies on curl's `List::append`: the line goes at the end; the one
/// failure is `CString::new` refusing a string with a NUL character in it,
/// which leaves the list as it was.
pub assume_specification[ List::append ](l: &mut List, data: &str) -> (r:
    Result<(), CurlError>)
    ensures
        r is Err <==> data@.contains('\0'),
        r is Ok ==> list_lines(*final(l)) == list_lines(*old(l)).push(data@),
        r is Err ==> list_lines(*final(l)) == list_lines(*old(l)),
;

/// What `String::from_utf8_lossy` makes of a byte string.
pub uninterp spec fn lossy_text(b: Seq<u8>) -> Seq<char>;

/// Relies on std's `String::from_utf8_lossy`: decodes the bytes, putting
/// U+FFFD in place of each invalid sequence; no bytes give no text.
#[verifier::external_body]
pub(crate) fn decode_lossy(data: &[u8]) -> (r: String)
    ensures
        r@ == lossy_text(data@),
        data@.len() == 0 ==> r@.len() == 0,
{
    String::from_utf8_lossy(data).into_owned()
}

/// Relies on curl's scoped transfer (`Easy::transfer`, and on the
/// `Transfer` it returns `read_function`, `write_function`,
/// `header_function` and `perform`): runs one blocking transfer whose
/// callbacks are the library's own `read_into`, `append_body` and
/// `record_header`.
#[verifier::external_body]
pub(crate) fn perform_transfer(
    handle: &mut Easy,
    reader: &mut BodyReader,
    body: &mut Vec<u8>,
    headers: &mut Vec<String>,
) -> (r: Result<(), CurlError>)
    requires
        old(reader).wf(),
    ensures
        final(reader).wf(),
        final(reader).spec_body() == old(reader).spec_body(),
        old(body)@.is_prefix_of(final(body)@),
        old(headers)@.is_prefix_of(final(headers)@),
        forall|i: int|
            old(headers)@.len() <= i < final(headers)@.len() ==> exists|b: Seq<u8>|
                #[trigger] final(headers)@[i]@ == lossy_text(b),
{
    let mut transfer = handle.transfer();
    transfer.read_function(|buf| Ok(reader.read_into(buf)))?;
    transfer.write_function(|data| Ok(append_body(body, data)))?;
    transfer.header_function(|data| crate::body::record_header(headers, data))?;
    transfer.perform()
}

} // verus!
