//! HTTP responses and loads: what the browser reports about a response and
//! about a load's progress, read into URLs, methods and status codes.
//!
//! Functions here that answer for a browser call take the browser's reply as
//! an argument; their documentation names the call.

use vstd::prelude::*;
use crate::ffi;
use crate::ffi::{PP_Bool, PP_Resource, PP_Var};
use crate::resource::{Resource, ResourceType, ToOption, handle_option};
use crate::url::{RequestInfo, RequestProperties_, prop_index};
use crate::var::StringVar;

verus! {

/// What `url::Url::parse` makes of a text: the URL's serialization, or
/// nothing when the text is not an absolute URL.
pub uninterp spec fn url_parse(text: Seq<char>) -> Option<Seq<char>>;

/// Calls `url::Url::parse(text)` and gives back the parsed URL's
/// serialization (`Url::as_str`). Claimed: the result is `url_parse` of the
/// text; nothing more is said of which texts parse.
#[verifier::external_body]
fn parse_url(text: &str) -> (r: Option<String>)
    ensures
        match r {
            Some(s) => url_parse(text@) == Some(s@),
            None => url_parse(text@) is None,
        },
{
    match url::Url::parse(text) {
        Ok(u) => Some(u.as_str().to_string()),
        Err(_) => None,
    }
}

/// The characters of an HTTP token: letters, digits and ``!#$%&'*+-.^_`|~``.
pub open spec fn is_tchar(c: char) -> bool {
    ||| ('0' <= c && c <= '9')
    ||| ('a' <= c && c <= 'z')
    ||| ('A' <= c && c <= 'Z')
    ||| c == '!' || c == '#' || c == '$' || c == '%' || c == '&' || c == '\'' || c == '*'
    ||| c == '+' || c == '-' || c == '.' || c == '^' || c == '_' || c == '`' || c == '|' || c == '~'
}

/// A method name: one or more token characters.
pub open spec fn is_method_name(s: Seq<char>) -> bool {
    s.len() > 0 && forall|i: int| 0 <= i < s.len() ==> is_tchar(#[trigger] s[i])
}

/// Calls `hyper::Method::from_bytes` on the text's bytes and gives back the
/// method's name (`Method::as_str`). Claimed, as the source of `http` shows:
/// a method is made exactly from a nonempty run of token characters, and its
/// name is the text it was made from.
#[verifier::external_body]
fn parse_method(text: &str) -> (r: Option<String>)
    ensures
        match r {
            Some(s) => is_method_name(text@) && s@ == text@,
            None => !is_method_name(text@),
        },
{
    match hyper::Method::from_bytes(text.as_bytes()) {
        Ok(m) => Some(m.as_str().to_string()),
        Err(_) => None,
    }
}

/// Calls `hyper::StatusCode::from_u16` and gives back the code's number
/// (`StatusCode::as_u16`). Claimed, as the source of `http` shows: the codes
/// from 100 to 999 are accepted, as themselves, and no others.
#[verifier::external_body]
fn status_from_u16(code: u16) -> (r: Option<u16>)
    ensures
        r == (if 100 <= code && code <= 999 { Some(code) } else { None::<u16> }),
{
    match hyper::StatusCode::from_u16(code) {
        Ok(s) => Some(s.as_u16()),
        Err(_) => None,
    }
}

/// The URL a text stands for, by its serialization, if it is one.
pub fn try_parse_url(text: &str) -> (r: Option<String>)
    ensures
        match r {
            Some(s) => url_parse(text@) == Some(s@),
            None => url_parse(text@) is None,
        },
{
    parse_url(text)
}

/// The method a name stands for, by its name, if it is one.
pub fn try_parse_method(text: &str) -> (r: Option<String>)
    ensures
        match r {
            Some(s) => is_method_name(text@) && s@ == text@,
            None => !is_method_name(text@),
        },
{
    parse_method(text)
}

/// A response as the browser holds it.
#[derive(Clone, Copy, PartialEq, Eq, Structural, Debug, Hash)]
pub struct ResponseInfo(pub PP_Resource);

/// A request as the browser holds it.
#[derive(Clone, Copy, PartialEq, Eq, Structural, Debug, Hash)]
pub struct UrlRequestInfo(pub PP_Resource);

impl Resource for ResponseInfo {
    open spec fn res(&self) -> PP_Resource { self.0 }
    open spec fn kind(&self) -> ResourceType { ResourceType::UrlResponseInfoRes }
    fn unwrap(&self) -> (r: PP_Resource) { self.0 }
    fn type_of(&self) -> (t: ResourceType) { ResourceType::UrlResponseInfoRes }
}

impl Resource for UrlRequestInfo {
    open spec fn res(&self) -> PP_Resource { self.0 }
    open spec fn kind(&self) -> ResourceType { ResourceType::UrlRequestInfoRes }
    fn unwrap(&self) -> (r: PP_Resource) { self.0 }
    fn type_of(&self) -> (t: ResourceType) { ResourceType::UrlRequestInfoRes }
}

impl ToOption<PP_Resource> for ResponseInfo {
    fn to_option(from: &PP_Resource) -> (r: Option<ResponseInfo>)
        ensures r == handle_option(*from, |h: PP_Resource| ResponseInfo(h)),
    {
        if *from == 0 { None } else { Some(ResponseInfo(*from)) }
    }
}

impl ToOption<PP_Resource> for UrlRequestInfo {
    fn to_option(from: &PP_Resource) -> (r: Option<UrlRequestInfo>)
        ensures r == handle_option(*from, |h: PP_Resource| UrlRequestInfo(h)),
    {
        if *from == 0 { None } else { Some(UrlRequestInfo(*from)) }
    }
}

/// Whether a var holds a string.
pub open spec fn is_string_var(v: PP_Var) -> bool {
    v._type == ffi::PP_VARTYPE_STRING
}

impl ResponseInfo {
    /// The response's URL as a browser string: `v` is the var that
    /// `PPB_URLResponseInfo::GetProperty(self, URL)` returned, a string.
    pub fn raw_url(&self, v: PP_Var) -> (s: StringVar)
        requires is_string_var(v),
        ensures s.0 == v.value,
    {
        StringVar::new_from_var(v)
    }

    /// The response's URL, by its serialization: `raw` is the text of
    /// `raw_url`, which the browser gives as an absolute URL.
    pub fn url(&self, raw: &str) -> (u: String)
        requires url_parse(raw@) is Some,
        ensures url_parse(raw@) == Some(u@),
    {
        match parse_url(raw) {
            Some(u) => u,
            None => String::new(),
        }
    }

    /// The response's URL, by its serialization, if `raw` (the text of
    /// `raw_url`) is an absolute URL.
    pub fn try_url(&self, raw: &str) -> (r: Option<String>)
        ensures
            match r {
                Some(u) => url_parse(raw@) == Some(u@),
                None => url_parse(raw@) is None,
            },
    {
        match parse_url(raw) {
            Some(_) => Some(self.url(raw)),
            None => None,
        }
    }

    /// The URL a redirect goes to, as a browser string: `v` is the var that
    /// `GetProperty(self, REDIRECTURL)` returned, a string.
    pub fn raw_redirect_url(&self, v: PP_Var) -> (s: StringVar)
        requires is_string_var(v),
        ensures s.0 == v.value,
    {
        StringVar::new_from_var(v)
    }

    /// The URL a redirect goes to: none when `raw` (the text of
    /// `raw_redirect_url`) is empty; otherwise it is an absolute URL.
    pub fn redirect_url(&self, raw: &str) -> (r: Option<String>)
        requires raw@.len() > 0 ==> url_parse(raw@) is Some,
        ensures
            raw@.len() == 0 ==> r is None,
            raw@.len() > 0 ==> (r matches Some(u) && url_parse(raw@) == Some(u@)),
    {
        if raw.is_empty() {
            None
        } else {
            Some(self.url(raw))
        }
    }

    /// The URL a redirect goes to, if `raw` is not empty and is an
    /// absolute URL; an empty text is no redirect.
    pub fn try_redirect_url(&self, raw: &str) -> (r: Option<Option<String>>)
        ensures
            raw@.len() == 0 ==> r == Some(None::<String>),
            raw@.len() > 0 && url_parse(raw@) is None ==> r is None,
            raw@.len() > 0 && url_parse(raw@) is Some ==>
                (r matches Some(Some(u)) && url_parse(raw@) == Some(u@)),
    {
        if raw.is_empty() {
            Some(None)
        } else {
            match parse_url(raw) {
                Some(_) => Some(self.redirect_url(raw)),
                None => None,
            }
        }
    }

    /// The method a redirect uses, as a browser string: `v` is the var
    /// that `GetProperty(self, REDIRECTMETHOD)` returned, a string.
    pub fn raw_redirect_method(&self, v: PP_Var) -> (s: StringVar)
        requires is_string_var(v),
        ensures s.0 == v.value,
    {
        StringVar::new_from_var(v)
    }

    /// The method a redirect uses, by its name: none when `raw` (the text of
    /// `raw_redirect_method`) is empty; otherwise it is a method name.
    pub fn redirect_method(&self, raw: &str) -> (r: Option<String>)
        requires raw@.len() > 0 ==> is_method_name(raw@),
        ensures
            raw@.len() == 0 ==> r is None,
            raw@.len() > 0 ==> (r matches Some(m) && m@ == raw@),
    {
        if raw.is_empty() {
            None
        } else {
            match parse_method(raw) {
                Some(m) => Some(m),
                None => Some(String::new()),
            }
        }
    }

    /// The response's status code as the browser gives it: `v` is the var
    /// that `GetProperty(self, STATUSCODE)` returned, whose low 16 bits are
    /// kept.
    pub fn raw_status_code(&self, v: PP_Var) -> (c: u16)
        ensures c == (v.value as i32) as u16,
    {
        let v = ffi::i32_from_var(v);
        #[verifier::truncate] (v as u16)
    }

    /// The response's status code, when it is one (from 100 to 999): `v` is
    /// the var that `GetProperty(self, STATUSCODE)` returned.
    pub fn status_code(&self, v: PP_Var) -> (r: Option<u16>)
        ensures
            ({
                let c = (v.value as i32) as u16;
                r == if 100 <= c && c <= 999 { Some(c) } else { None::<u16> }
            }),
    {
        let c = self.raw_status_code(v);
        status_from_u16(c)
    }

    /// The response's header lines as a browser string: `v` is the var that
    /// `GetProperty(self, HEADERS)` returned, a string.
    pub fn raw_headers_var(&self, v: PP_Var) -> (s: StringVar)
        requires is_string_var(v),
        ensures s.0 == v.value,
    {
        StringVar::new_from_var(v)
    }
}

/// A load of a URL with the browser's report on its response.
#[derive(Clone, Copy, PartialEq, Eq, Structural, Debug, Hash)]
pub struct Loader {
    pub res: PP_Resource,
    pub info: ResponseInfo,
}

impl Resource for Loader {
    open spec fn res(&self) -> PP_Resource { self.res }
    open spec fn kind(&self) -> ResourceType { ResourceType::UrlLoaderRes }
    fn unwrap(&self) -> (r: PP_Resource) { self.res }
    fn type_of(&self) -> (t: ResourceType) { ResourceType::UrlLoaderRes }
}

/// Whether a progress answer lets the progress be read: the bitwise
/// complement of the answer must be zero, which neither `PP_TRUE` nor
/// `PP_FALSE` meets.
pub open spec fn progress_readable(reply: PP_Bool) -> bool {
    !reply == 0
}

impl Loader {
    /// A load and its response: `info` is the handle that
    /// `PPB_URLLoader::GetResponseInfo(loader)` returned, which a loader
    /// that has been opened always has.
    pub fn from_handles(loader: PP_Resource, info: PP_Resource) -> (l: Loader)
        requires info != 0,
        ensures l.res == loader, l.info == ResponseInfo(info),
    {
        Loader { res: loader, info: ResponseInfo(info) }
    }

    /// How much has come in and, when the total is known (not -1), how
    /// much will: `reply`, `bytes` and `total` are the answer of
    /// `PPB_URLLoader::GetDownloadProgress(self, &bytes, &total)` and what
    /// it filled in.
    pub fn download_progress(&self, reply: PP_Bool, bytes: i64, total: i64) -> (r: Option<(u64, Option<u64>)>)
        ensures
            !progress_readable(reply) ==> r is None,
            progress_readable(reply) ==> r == Some((bytes as u64,
                if total == -1 { None::<u64> } else { Some(total as u64) })),
    {
        if !reply != 0 {
            None
        } else if total == -1 {
            Some((#[verifier::truncate] (bytes as u64), None))
        } else {
            Some((#[verifier::truncate] (bytes as u64), Some(#[verifier::truncate] (total as u64))))
        }
    }

    /// How much has gone out and how much will: `reply`, `bytes` and
    /// `total` are the answer of `PPB_URLLoader::GetUploadProgress(self,
    /// &bytes, &total)` and what it filled in.
    pub fn upload_progress(&self, reply: PP_Bool, bytes: i64, total: i64) -> (r: Option<(u64, u64)>)
        ensures
            !progress_readable(reply) ==> r is None,
            progress_readable(reply) ==> r == Some((bytes as u64, total as u64)),
    {
        if !reply != 0 {
            None
        } else {
            Some((#[verifier::truncate] (bytes as u64), #[verifier::truncate] (total as u64)))
        }
    }

    pub fn info(&self) -> (i: ResponseInfo)
        ensures i == self.info,
    {
        self.info
    }
}

impl RequestInfo {
    /// The request with redirects followed: the property's value is set
    /// (without marking it as set).
    pub fn follow_redirects(self) -> (r: RequestInfo)
        ensures
            r.properties.has(RequestProperties_::FollowRedirects),
            forall|q: RequestProperties_| q != RequestProperties_::FollowRedirects ==>
                r.properties.has(q) == self.properties.has(q),
            r.set_props == self.set_props,
            r.url == self.url,
            r.method == self.method,
            r.prefetch_buffer == self.prefetch_buffer,
            r.body == self.body,
            r.headers == self.headers,
    {
        let mut s = self;
        s.set_prop_value(RequestProperties_::FollowRedirects, true);
        s
    }
}

/// What `httparse::parse_headers` makes of a block of header lines with
/// room for `slots` headers: the number of bytes it read up to and
/// including the empty line that ends the block, and each header's name and
/// value; nothing when the block is cut short, malformed, or has more
/// headers than room.
pub uninterp spec fn httparse_headers(buf: Seq<u8>, slots: nat) -> Option<(nat, Seq<(Seq<char>, Seq<u8>)>)>;

/// Calls `httparse::parse_headers(buf, slots)` with `slots` empty headers,
/// and gives back the complete result with each header copied out. Claimed:
/// the result is `httparse_headers` of the bytes and the room, and the
/// number of bytes read is at most the number given (it is, as the crate's
/// documentation says, the index at which parsing stopped).
#[verifier::external_body]
fn parse_header_block(buf: &[u8], slots: usize) -> (r: Option<(usize, Vec<(String, Vec<u8>)>)>)
    ensures
        match r {
            Some((n, hs)) => httparse_headers(buf@, slots as nat) matches Some((m, named))
                && n == m && n <= buf@.len() && hs@.len() == named.len()
                && forall|k: int| 0 <= k < hs@.len() ==> (#[trigger] hs@[k]).0@ == named[k].0 && hs@[k].1@ == named[k].1,
            None => httparse_headers(buf@, slots as nat) is None,
        },
{
    let mut dst = vec![httparse::EMPTY_HEADER; slots];
    match httparse::parse_headers(buf, &mut dst) {
        Ok(httparse::Status::Complete((n, hs))) =>
            Some((n, hs.iter().map(|h| (h.name.to_string(), h.value.to_vec())).collect())),
        Ok(httparse::Status::Partial) => None,
        Err(_) => None,
    }
}

/// The headers of a response's header text, block after block: each block
/// is parsed from where the last ended, until a block reads nothing. None
/// when a block does not parse, the end of the text among them.
pub open spec fn header_blocks(raw: Seq<u8>, offset: int, slots: nat) -> Option<Seq<(Seq<char>, Seq<u8>)>>
    decreases raw.len() - offset,
{
    if offset < 0 || offset > raw.len() {
        None
    } else {
        match httparse_headers(raw.subrange(offset, raw.len() as int), slots) {
            None => None,
            Some((n, hs)) => {
                if n == 0 || offset + n > raw.len() {
                    Some(hs)
                } else {
                    match header_blocks(raw, offset + n, slots) {
                        None => None,
                        Some(rest) => Some(hs + rest),
                    }
                }
            },
        }
    }
}

/// Whether a list of copied headers holds the named headers.
pub open spec fn headers_match(hs: Seq<(String, Vec<u8>)>, named: Seq<(Seq<char>, Seq<u8>)>) -> bool {
    &&& hs.len() == named.len()
    &&& forall|k: int| 0 <= k < hs.len() ==> (#[trigger] hs[k]).0@ == named[k].0 && hs[k].1@ == named[k].1
}

fn append_headers(all: &mut Vec<(String, Vec<u8>)>, more: Vec<(String, Vec<u8>)>)
    ensures
        final(all)@.len() == old(all)@.len() + more@.len(),
        forall|k: int| 0 <= k < old(all)@.len() ==> final(all)@[k] == old(all)@[k],
        forall|k: int| 0 <= k < more@.len() ==> final(all)@[old(all)@.len() + k] == more@[k],
{
    let mut more = more;
    all.append(&mut more);
}

/// The headers of a header text, block by block; none when a block does
/// not parse.
fn parse_header_blocks(raw: &[u8], slots: usize) -> (r: Option<Vec<(String, Vec<u8>)>>)
    ensures
        match r {
            Some(hs) => header_blocks(raw@, 0, slots as nat) matches Some(named) && headers_match(hs@, named),
            None => header_blocks(raw@, 0, slots as nat) is None,
        },
{
    let mut all: Vec<(String, Vec<u8>)> = Vec::new();
    let mut offset: usize = 0;
    let n = raw.len();
    loop
        invariant
            n == raw@.len(),
            offset <= n,
            ({
                let got = all@;
                match header_blocks(raw@, offset as int, slots as nat) {
                    Some(rest) => header_blocks(raw@, 0, slots as nat) matches Some(total)
                        && total.len() == got.len() + rest.len()
                        && (forall|k: int| 0 <= k < got.len() ==> (#[trigger] got[k]).0@ == total[k].0 && got[k].1@ == total[k].1)
                        && (forall|k: int| 0 <= k < rest.len() ==> total[got.len() + k] == #[trigger] rest[k]),
                    None => header_blocks(raw@, 0, slots as nat) is None,
                }
            }),
        decreases n - offset,
    {
        let ghost before = all@;
        let block = &raw[offset..n];
        proof {
            assert(block@ == raw@.subrange(offset as int, raw@.len() as int));
        }
        match parse_header_block(block, slots) {
            None => {
                return None;
            },
            Some((bytes, hs)) => {
                let ghost named = httparse_headers(block@, slots as nat)->Some_0.1;
                let ghost more = hs@;
                append_headers(&mut all, hs);
                if bytes == 0 {
                    proof {
                        assert(header_blocks(raw@, offset as int, slots as nat) == Some(named));
                        let total = header_blocks(raw@, 0, slots as nat)->Some_0;
                        assert forall|k: int| 0 <= k < all@.len() implies
                            (#[trigger] all@[k]).0@ == total[k].0 && all@[k].1@ == total[k].1 by {
                            if k >= before.len() {
                                assert(all@[k] == more[k - before.len()]);
                            }
                        }
                        assert(headers_match(all@, total));
                    }
                    return Some(all);
                }
                proof {
                    let next = offset + bytes;
                    match header_blocks(raw@, next as int, slots as nat) {
                        Some(rest2) => {
                            assert(header_blocks(raw@, offset as int, slots as nat) == Some(named + rest2));
                            let total = header_blocks(raw@, 0, slots as nat)->Some_0;
                            assert forall|k: int| 0 <= k < all@.len() implies
                                (#[trigger] all@[k]).0@ == total[k].0 && all@[k].1@ == total[k].1 by {
                                if k >= before.len() {
                                    assert(all@[k] == more[k - before.len()]);
                                    assert(total[k] == (named + rest2)[k - before.len()]);
                                }
                            }
                            assert forall|k: int| 0 <= k < rest2.len() implies
                                total[all@.len() + k] == #[trigger] rest2[k] by {
                                assert(total[all@.len() + k] == (named + rest2)[named.len() + k]);
                            }
                        },
                        None => {
                            assert(header_blocks(raw@, offset as int, slots as nat) is None);
                        },
                    }
                }
                offset = offset + bytes;
            },
        }
    }
}

/// One block of header lines, as `httparse` reads it with room for `slots`
/// headers: how many bytes it took and the headers; none when it does not
/// parse.
pub fn header_block(raw: &[u8], slots: usize) -> (r: Option<(usize, Vec<(String, Vec<u8>)>)>)
    ensures
        match r {
            Some((n, hs)) => httparse_headers(raw@, slots as nat) matches Some((m, named))
                && n == m && n <= raw@.len() && headers_match(hs@, named),
            None => httparse_headers(raw@, slots as nat) is None,
        },
{
    parse_header_block(raw, slots)
}

impl ResponseInfo {
    /// The response's headers, each a name and a value: `raw` is the header
    /// text of `raw_headers_var`, parsed block by block with room for
    /// `slots` headers each; the browser's header text parses.
    pub fn headers(&self, raw: &[u8], slots: usize) -> (hs: Vec<(String, Vec<u8>)>)
        requires header_blocks(raw@, 0, slots as nat) is Some,
        ensures headers_match(hs@, header_blocks(raw@, 0, slots as nat)->Some_0),
    {
        match parse_header_blocks(raw, slots) {
            Some(hs) => hs,
            None => Vec::new(),
        }
    }

    /// The response's headers, as `headers` reads them, if the header text
    /// parses; none when a block does not.
    pub fn try_headers(&self, raw: &[u8], slots: usize) -> (r: Option<Vec<(String, Vec<u8>)>>)
        ensures
            match r {
                Some(hs) => header_blocks(raw@, 0, slots as nat) matches Some(named) && headers_match(hs@, named),
                None => header_blocks(raw@, 0, slots as nat) is None,
            },
    {
        match parse_header_blocks(raw, slots) {
            Some(_) => Some(self.headers(raw, slots)),
            None => None,
        }
    }
}

} // verus!
