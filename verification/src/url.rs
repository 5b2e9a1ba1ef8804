//! URL loading: request properties, the steps that fill in a browser
//! request, and what the browser reports about a load.
//!
//! Functions here that answer for a browser call take the browser's reply as
//! an argument; their documentation names the call.

use vstd::prelude::*;
use crate::ffi;
use crate::ffi::{PP_Bool, PP_Resource, PP_URLRequestProperty};
use crate::fs::{FileView, SliceIo, window_len};
use crate::code::{Code, code_of, is_known_code};
use crate::instance::Instance;
use crate::resource::{Resource, ResourceType, ToOption, handle_option};
use crate::http::{url_parse, is_method_name, try_parse_url, try_parse_method};

verus! {

/// A loader of a URL.
#[derive(Clone, Copy, PartialEq, Eq, Structural, Debug, Hash)]
pub struct UrlLoader(pub PP_Resource);

/// A request as the browser holds it.
#[derive(Clone, Copy, PartialEq, Eq, Structural, Debug, Hash)]
pub struct UrlRequestInfo(pub PP_Resource);

/// A response as the browser holds it.
#[derive(Clone, Copy, PartialEq, Eq, Structural, Debug, Hash)]
pub struct UrlResponseInfo(pub PP_Resource);

impl UrlLoader {
    pub fn new(res: PP_Resource) -> (l: UrlLoader)
        ensures l.0 == res,
    {
        UrlLoader(res)
    }
}

impl UrlRequestInfo {
    pub fn new(res: PP_Resource) -> (l: UrlRequestInfo)
        ensures l.0 == res,
    {
        UrlRequestInfo(res)
    }
}

impl UrlResponseInfo {
    pub fn new(res: PP_Resource) -> (l: UrlResponseInfo)
        ensures l.0 == res,
    {
        UrlResponseInfo(res)
    }
}

impl Resource for UrlLoader {
    open spec fn res(&self) -> PP_Resource { self.0 }
    open spec fn kind(&self) -> ResourceType { ResourceType::UrlLoaderRes }
    fn unwrap(&self) -> (r: PP_Resource) { self.0 }
    fn type_of(&self) -> (t: ResourceType) { ResourceType::UrlLoaderRes }
}

impl Resource for UrlRequestInfo {
    open spec fn res(&self) -> PP_Resource { self.0 }
    open spec fn kind(&self) -> ResourceType { ResourceType::UrlRequestInfoRes }
    fn unwrap(&self) -> (r: PP_Resource) { self.0 }
    fn type_of(&self) -> (t: ResourceType) { ResourceType::UrlRequestInfoRes }
}

impl Resource for UrlResponseInfo {
    open spec fn res(&self) -> PP_Resource { self.0 }
    open spec fn kind(&self) -> ResourceType { ResourceType::UrlResponseInfoRes }
    fn unwrap(&self) -> (r: PP_Resource) { self.0 }
    fn type_of(&self) -> (t: ResourceType) { ResourceType::UrlResponseInfoRes }
}

impl ToOption<PP_Resource> for UrlLoader {
    fn to_option(from: &PP_Resource) -> (r: Option<UrlLoader>)
        ensures r == handle_option(*from, |h: PP_Resource| UrlLoader(h)),
    {
        if *from == 0 { None } else { Some(UrlLoader(*from)) }
    }
}

impl ToOption<PP_Resource> for UrlRequestInfo {
    fn to_option(from: &PP_Resource) -> (r: Option<UrlRequestInfo>)
        ensures r == handle_option(*from, |h: PP_Resource| UrlRequestInfo(h)),
    {
        if *from == 0 { None } else { Some(UrlRequestInfo(*from)) }
    }
}

impl ToOption<PP_Resource> for UrlResponseInfo {
    fn to_option(from: &PP_Resource) -> (r: Option<UrlResponseInfo>)
        ensures r == handle_option(*from, |h: PP_Resource| UrlResponseInfo(h)),
    {
        if *from == 0 { None } else { Some(UrlResponseInfo(*from)) }
    }
}

/// The boolean properties of a request.
#[derive(Clone, Copy, PartialEq, Eq, Structural, Debug, Hash)]
pub enum RequestProperties_ {
    AllowCrossOriginRequests,
    AllowCredentials,
    RecordUploadProgress,
    RecordDownloadProgress,
    FollowRedirects,
    StreamToFile,
}

/// The position of each property in a property set.
pub open spec fn prop_index(p: RequestProperties_) -> usize {
    match p {
        RequestProperties_::AllowCrossOriginRequests => 0,
        RequestProperties_::AllowCredentials => 1,
        RequestProperties_::RecordUploadProgress => 2,
        RequestProperties_::RecordDownloadProgress => 3,
        RequestProperties_::FollowRedirects => 4,
        RequestProperties_::StreamToFile => 5,
    }
}

pub open spec fn prop_at(i: usize) -> RequestProperties_ {
    if i == 0 { RequestProperties_::AllowCrossOriginRequests }
    else if i == 1 { RequestProperties_::AllowCredentials }
    else if i == 2 { RequestProperties_::RecordUploadProgress }
    else if i == 3 { RequestProperties_::RecordDownloadProgress }
    else if i == 4 { RequestProperties_::FollowRedirects }
    else { RequestProperties_::StreamToFile }
}

/// The browser's name for each property.
pub open spec fn prop_value(p: RequestProperties_) -> PP_URLRequestProperty {
    match p {
        RequestProperties_::AllowCrossOriginRequests => ffi::PP_URLREQUESTPROPERTY_ALLOWCROSSORIGINREQUESTS,
        RequestProperties_::AllowCredentials => ffi::PP_URLREQUESTPROPERTY_ALLOWCREDENTIALS,
        RequestProperties_::RecordUploadProgress => ffi::PP_URLREQUESTPROPERTY_RECORDUPLOADPROGRESS,
        RequestProperties_::RecordDownloadProgress => ffi::PP_URLREQUESTPROPERTY_RECORDDOWNLOADPROGRESS,
        RequestProperties_::FollowRedirects => ffi::PP_URLREQUESTPROPERTY_FOLLOWREDIRECTS,
        RequestProperties_::StreamToFile => ffi::PP_URLREQUESTPROPERTY_STREAMTOFILE,
    }
}

impl RequestProperties_ {
    pub fn to_usize(&self) -> (i: usize)
        ensures i == prop_index(*self),
    {
        match self {
            RequestProperties_::AllowCrossOriginRequests => 0,
            RequestProperties_::AllowCredentials => 1,
            RequestProperties_::RecordUploadProgress => 2,
            RequestProperties_::RecordDownloadProgress => 3,
            RequestProperties_::FollowRedirects => 4,
            RequestProperties_::StreamToFile => 5,
        }
    }

    /// The property at a position; positions past the last are none.
    pub fn from_usize(v: usize) -> (p: RequestProperties_)
        requires v < 6,
        ensures p == prop_at(v),
    {
        if v == 0 {
            RequestProperties_::AllowCrossOriginRequests
        } else if v == 1 {
            RequestProperties_::AllowCredentials
        } else if v == 2 {
            RequestProperties_::RecordUploadProgress
        } else if v == 3 {
            RequestProperties_::RecordDownloadProgress
        } else if v == 4 {
            RequestProperties_::FollowRedirects
        } else {
            RequestProperties_::StreamToFile
        }
    }

    pub fn to_ffi(&self) -> (v: PP_URLRequestProperty)
        ensures v == prop_value(*self),
    {
        match self {
            RequestProperties_::AllowCrossOriginRequests => ffi::PP_URLREQUESTPROPERTY_ALLOWCROSSORIGINREQUESTS,
            RequestProperties_::AllowCredentials => ffi::PP_URLREQUESTPROPERTY_ALLOWCREDENTIALS,
            RequestProperties_::RecordUploadProgress => ffi::PP_URLREQUESTPROPERTY_RECORDUPLOADPROGRESS,
            RequestProperties_::RecordDownloadProgress => ffi::PP_URLREQUESTPROPERTY_RECORDDOWNLOADPROGRESS,
            RequestProperties_::FollowRedirects => ffi::PP_URLREQUESTPROPERTY_FOLLOWREDIRECTS,
            RequestProperties_::StreamToFile => ffi::PP_URLREQUESTPROPERTY_STREAMTOFILE,
        }
    }
}

/// Positions and properties correspond one to one, and distinct properties
/// have distinct browser names.
pub proof fn lemma_prop_index_roundtrip(p: RequestProperties_, q: RequestProperties_, i: usize)
    ensures
        prop_index(p) < 6,
        prop_at(prop_index(p)) == p,
        i < 6 ==> prop_index(prop_at(i)) == i,
        p != q ==> prop_value(p) != prop_value(q),
{
}

/// A set of request properties.
#[derive(Clone, Copy, PartialEq, Eq, Structural, Debug, Hash)]
pub struct RequestProperties {
    pub allow_cross_origin_requests: bool,
    pub allow_credentials: bool,
    pub record_upload_progress: bool,
    pub record_download_progress: bool,
    pub follow_redirects: bool,
    pub stream_to_file: bool,
}

impl RequestProperties {
    pub open spec fn has(self, p: RequestProperties_) -> bool {
        match p {
            RequestProperties_::AllowCrossOriginRequests => self.allow_cross_origin_requests,
            RequestProperties_::AllowCredentials => self.allow_credentials,
            RequestProperties_::RecordUploadProgress => self.record_upload_progress,
            RequestProperties_::RecordDownloadProgress => self.record_download_progress,
            RequestProperties_::FollowRedirects => self.follow_redirects,
            RequestProperties_::StreamToFile => self.stream_to_file,
        }
    }

    pub fn new() -> (s: RequestProperties)
        ensures forall|p: RequestProperties_| !s.has(p),
    {
        RequestProperties {
            allow_cross_origin_requests: false,
            allow_credentials: false,
            record_upload_progress: false,
            record_download_progress: false,
            follow_redirects: false,
            stream_to_file: false,
        }
    }

    pub fn contains(&self, p: &RequestProperties_) -> (b: bool)
        ensures b == self.has(*p),
    {
        match p {
            RequestProperties_::AllowCrossOriginRequests => self.allow_cross_origin_requests,
            RequestProperties_::AllowCredentials => self.allow_credentials,
            RequestProperties_::RecordUploadProgress => self.record_upload_progress,
            RequestProperties_::RecordDownloadProgress => self.record_download_progress,
            RequestProperties_::FollowRedirects => self.follow_redirects,
            RequestProperties_::StreamToFile => self.stream_to_file,
        }
    }

    /// The set with a property's membership set to `member`, the others
    /// kept.
    pub fn with(&self, p: RequestProperties_, member: bool) -> (s: RequestProperties)
        ensures
            s.has(p) == member,
            forall|q: RequestProperties_| q != p ==> s.has(q) == self.has(q),
    {
        match p {
            RequestProperties_::AllowCrossOriginRequests => RequestProperties { allow_cross_origin_requests: member, ..*self },
            RequestProperties_::AllowCredentials => RequestProperties { allow_credentials: member, ..*self },
            RequestProperties_::RecordUploadProgress => RequestProperties { record_upload_progress: member, ..*self },
            RequestProperties_::RecordDownloadProgress => RequestProperties { record_download_progress: member, ..*self },
            RequestProperties_::FollowRedirects => RequestProperties { follow_redirects: member, ..*self },
            RequestProperties_::StreamToFile => RequestProperties { stream_to_file: member, ..*self },
        }
    }

    pub fn insert(&mut self, p: RequestProperties_)
        ensures
            final(self).has(p),
            forall|q: RequestProperties_| q != p ==> final(self).has(q) == old(self).has(q),
    {
        *self = self.with(p, true);
    }
}

/// What a request sends as its body: a part of a file (with the time the
/// file was last changed, by its bits, when it must not have changed since)
/// or bytes.
#[derive(Clone, Debug)]
pub enum Body {
    File(SliceIo, Option<u64>),
    Blob(Vec<u8>),
}

/// One step in filling in a browser request: a boolean property, a part
/// of the body, or a text property.
#[derive(Clone, Debug)]
pub enum RequestStep {
    SetBool(PP_URLRequestProperty, bool),
    AppendFile(PP_Resource, i64, Option<i64>, Option<u64>),
    AppendBlob(Vec<u8>),
    SetText(PP_URLRequestProperty, String),
}

/// A request to make: the URL and method by their text, a prefetch buffer,
/// the boolean properties (each either left to the browser or set to a
/// value), the parts of the body, and the header lines.
#[derive(Clone, Debug)]
pub struct RequestInfo {
    pub url: String,
    pub method: String,
    pub prefetch_buffer: Option<(i32, i32)>,
    pub properties: RequestProperties,
    pub set_props: RequestProperties,
    pub body: Vec<Body>,
    pub headers: String,
}

/// The boolean property steps for the properties that are set: first, in
/// property order, those set to true, then those set to false.
pub open spec fn prop_steps_from(props: RequestProperties, set: RequestProperties, value: bool, i: nat) -> Seq<(PP_URLRequestProperty, bool)>
    decreases 6 - i,
{
    if i >= 6 {
        Seq::empty()
    } else {
        let p = prop_at(i as usize);
        let rest = prop_steps_from(props, set, value, i + 1);
        if set.has(p) && props.has(p) == value {
            seq![(prop_value(p), value)] + rest
        } else {
            rest
        }
    }
}

pub open spec fn prop_steps(props: RequestProperties, set: RequestProperties) -> Seq<(PP_URLRequestProperty, bool)> {
    prop_steps_from(props, set, true, 0) + prop_steps_from(props, set, false, 0)
}

/// Whether a step appends a body part: a file part by its file, where its
/// window starts and how long it is, or bytes by their value.
pub open spec fn is_body_step(s: RequestStep, b: Body) -> bool {
    match b {
        Body::File(slice, time) => s == RequestStep::AppendFile(slice.0.0, slice.1 as i64,
            match window_len(slice.1, slice.2) { Some(l) => Some(l as i64), None => None }, time),
        Body::Blob(bytes) => s matches RequestStep::AppendBlob(v) && v@ == bytes@,
    }
}

proof fn lemma_prop_steps_from(props: RequestProperties, set: RequestProperties, value: bool, i: nat, p: RequestProperties_)
    requires i <= 6,
    ensures
        prop_steps_from(props, set, value, i).contains((prop_value(p), value))
            <==> (prop_index(p) >= i && set.has(p) && props.has(p) == value),
        forall|b: bool| b != value ==> !prop_steps_from(props, set, value, i).contains((prop_value(p), b)),
    decreases 6 - i,
{
    lemma_prop_index_roundtrip(p, p, 0);
    if i < 6 {
        let q = prop_at(i as usize);
        lemma_prop_steps_from(props, set, value, i + 1, p);
        lemma_prop_index_roundtrip(q, p, i as usize);
        let rest = prop_steps_from(props, set, value, i + 1);
        if set.has(q) && props.has(q) == value {
            assert(prop_steps_from(props, set, value, i) == seq![(prop_value(q), value)] + rest);
            assert forall|b: bool| b != value implies !prop_steps_from(props, set, value, i).contains((prop_value(p), b)) by {
                if prop_steps_from(props, set, value, i).contains((prop_value(p), b)) {
                    let k = choose|k: int| 0 <= k < prop_steps_from(props, set, value, i).len()
                        && prop_steps_from(props, set, value, i)[k] == (prop_value(p), b);
                    if k > 0 {
                        assert(rest[k - 1] == (prop_value(p), b));
                        assert(rest.contains((prop_value(p), b)));
                    } else {
                        assert(prop_steps_from(props, set, value, i)[0] == (prop_value(q), value));
                    }
                }
            }
            if prop_steps_from(props, set, value, i).contains((prop_value(p), value)) {
                let k = choose|k: int| 0 <= k < prop_steps_from(props, set, value, i).len()
                    && prop_steps_from(props, set, value, i)[k] == (prop_value(p), value);
                if k > 0 {
                    assert(rest[k - 1] == (prop_value(p), value));
                    assert(rest.contains((prop_value(p), value)));
                }
            }
            if prop_index(p) >= i && set.has(p) && props.has(p) == value {
                if prop_index(p) == i {
                    assert(p == q);
                    assert(prop_steps_from(props, set, value, i)[0] == (prop_value(p), value));
                } else {
                    let k = choose|k: int| 0 <= k < rest.len() && rest[k] == (prop_value(p), value);
                    assert(prop_steps_from(props, set, value, i)[k + 1] == (prop_value(p), value));
                }
            }
        } else {
            if prop_index(p) == i {
                assert(p == q);
            }
        }
    }
}

/// Filling in a request sets exactly the properties marked as set, each to
/// its value: a property marked as set has a step with its value and none
/// with the other; an unmarked property has no step.
pub proof fn lemma_prop_steps_are_the_set_properties(props: RequestProperties, set: RequestProperties, p: RequestProperties_)
    ensures
        set.has(p) ==> prop_steps(props, set).contains((prop_value(p), props.has(p))),
        set.has(p) ==> !prop_steps(props, set).contains((prop_value(p), !props.has(p))),
        !set.has(p) ==> !prop_steps(props, set).contains((prop_value(p), true))
            && !prop_steps(props, set).contains((prop_value(p), false)),
{
    lemma_prop_steps_from(props, set, true, 0, p);
    lemma_prop_steps_from(props, set, false, 0, p);
    let t = prop_steps_from(props, set, true, 0);
    let f = prop_steps_from(props, set, false, 0);
    assert forall|x: (PP_URLRequestProperty, bool)| (t + f).contains(x) <==> (t.contains(x) || f.contains(x)) by {
        if (t + f).contains(x) {
            let k = choose|k: int| 0 <= k < (t + f).len() && (t + f)[k] == x;
            if k < t.len() {
                assert(t[k] == x);
            } else {
                assert(f[k - t.len()] == x);
            }
        }
        if t.contains(x) {
            let k = choose|k: int| 0 <= k < t.len() && t[k] == x;
            assert((t + f)[k] == x);
        }
        if f.contains(x) {
            let k = choose|k: int| 0 <= k < f.len() && f[k] == x;
            assert((t + f)[t.len() + k] == x);
        }
    }
}

/// A text that is the serialization of a parsed URL.
pub open spec fn is_url(s: Seq<char>) -> bool {
    exists|text: Seq<char>| #[trigger] url_parse(text) == Some(s)
}

impl RequestInfo {
    /// The request's URL is a parsed URL, by its serialization, and its
    /// method a method name.
    pub open spec fn wf(&self) -> bool {
        is_url(self.url@) && is_method_name(self.method@)
    }

    /// A request for a URL with a method, an optional body and header lines;
    /// no prefetch buffer and no property set. `url` is a parsed URL's
    /// serialization and `method` a method name.
    pub fn new(url: String, method: String, body: Option<Body>, headers: Option<String>) -> (r: RequestInfo)
        requires
            is_url(url@),
            is_method_name(method@),
        ensures
            r.wf(),
            r.url@ == url@,
            r.method@ == method@,
            r.prefetch_buffer is None,
            forall|p: RequestProperties_| !r.properties.has(p) && !r.set_props.has(p),
            r.body@.len() == match body { Some(_) => 1int, None => 0int },
            body matches Some(b) ==> r.body@[0] == b,
            headers is None ==> r.headers@ == Seq::<char>::empty(),
            headers matches Some(h) ==> r.headers@ == h@,
    {
        let body = match body {
            Some(b) => vec![b],
            None => Vec::new(),
        };
        let headers = match headers {
            Some(h) => h,
            None => String::new(),
        };
        RequestInfo {
            url,
            method,
            prefetch_buffer: None,
            properties: RequestProperties::new(),
            set_props: RequestProperties::new(),
            body,
            headers,
        }
    }

    /// A request for the URL a text stands for, with the method a name
    /// stands for; none when the text is not an absolute URL or the name
    /// not a method.
    pub fn try_new(url: &str, method: &str, body: Option<Body>, headers: Option<String>) -> (r: Option<RequestInfo>)
        ensures
            match r {
                Some(q) => q.wf()
                    && url_parse(url@) == Some(q.url@)
                    && q.method@ == method@
                    && q.prefetch_buffer is None
                    && (forall|p: RequestProperties_| !q.properties.has(p) && !q.set_props.has(p))
                    && q.body@.len() == (match body { Some(_) => 1int, None => 0int })
                    && (body matches Some(b) ==> q.body@[0] == b)
                    && (headers is None ==> q.headers@ == Seq::<char>::empty())
                    && (headers matches Some(h) ==> q.headers@ == h@),
                None => url_parse(url@) is None || !is_method_name(method@),
            },
    {
        match (try_parse_url(url), try_parse_method(method)) {
            (Some(u), Some(m)) => {
                proof { assert(url_parse(url@) == Some(u@)); }
                Some(RequestInfo::new(u, m, body, headers))
            },
            _ => None,
        }
    }

    /// A set of properties with one property taken out.
    pub fn clear_bit(bitfield: RequestProperties, prop: RequestProperties_) -> (r: RequestProperties)
        ensures
            !r.has(prop),
            forall|q: RequestProperties_| q != prop ==> r.has(q) == bitfield.has(q),
    {
        bitfield.with(prop, false)
    }

    /// Sets a property to a value, and marks it as set.
    pub fn set_prop(&mut self, prop: RequestProperties_, bit: bool)
        ensures
            final(self).set_props.has(prop),
            final(self).properties.has(prop) == bit,
            forall|q: RequestProperties_| q != prop ==> final(self).set_props.has(q) == old(self).set_props.has(q)
                && final(self).properties.has(q) == old(self).properties.has(q),
            final(self).url == old(self).url,
            final(self).method == old(self).method,
            final(self).prefetch_buffer == old(self).prefetch_buffer,
            final(self).body == old(self).body,
            final(self).headers == old(self).headers,
    {
        self.set_props.insert(prop);
        self.set_prop_value(prop, bit);
    }

    /// Takes away the mark that a property is set, and answers whether it
    /// was; the property's value stays.
    pub fn unset_prop(&mut self, prop: RequestProperties_) -> (was_set: bool)
        ensures
            was_set == old(self).set_props.has(prop),
            !final(self).set_props.has(prop),
            forall|q: RequestProperties_| q != prop ==> final(self).set_props.has(q) == old(self).set_props.has(q),
            final(self).properties == old(self).properties,
            final(self).url == old(self).url,
            final(self).method == old(self).method,
            final(self).prefetch_buffer == old(self).prefetch_buffer,
            final(self).body == old(self).body,
            final(self).headers == old(self).headers,
    {
        let was_set = self.set_props.contains(&prop);
        self.set_props = RequestInfo::clear_bit(self.set_props, prop);
        was_set
    }

    /// Sets a property's value without marking it as set, and answers
    /// whether its value was true.
    pub fn set_prop_value(&mut self, prop: RequestProperties_, bit: bool) -> (was: bool)
        ensures
            was == old(self).properties.has(prop),
            final(self).properties.has(prop) == bit,
            forall|q: RequestProperties_| q != prop ==> final(self).properties.has(q) == old(self).properties.has(q),
            final(self).set_props == old(self).set_props,
            final(self).url == old(self).url,
            final(self).method == old(self).method,
            final(self).prefetch_buffer == old(self).prefetch_buffer,
            final(self).body == old(self).body,
            final(self).headers == old(self).headers,
    {
        let mut new = RequestInfo::clear_bit(self.properties, prop);
        if bit {
            new.insert(prop);
        }
        let was_set = self.properties.contains(&prop);
        self.properties = new;
        was_set
    }

    /// The boolean property steps of the request.
    pub fn prop_steps(&self) -> (steps: Vec<(PP_URLRequestProperty, bool)>)
        ensures steps@ == prop_steps(self.properties, self.set_props),
    {
        let mut trues: Vec<(PP_URLRequestProperty, bool)> = Vec::new();
        let mut falses: Vec<(PP_URLRequestProperty, bool)> = Vec::new();
        let mut i: usize = 6;
        while i > 0
            invariant
                i <= 6,
                trues@ == prop_steps_from(self.properties, self.set_props, true, i as nat),
                falses@ == prop_steps_from(self.properties, self.set_props, false, i as nat),
            decreases i,
        {
            i = i - 1;
            let p = RequestProperties_::from_usize(i);
            if self.set_props.contains(&p) {
                if self.properties.contains(&p) {
                    let mut t = vec![(p.to_ffi(), true)];
                    t.append(&mut trues);
                    trues = t;
                } else {
                    let mut f = vec![(p.to_ffi(), false)];
                    f.append(&mut falses);
                    falses = f;
                }
            }
        }
        trues.append(&mut falses);
        trues
    }

    /// Every step that fills in the browser's request, in order: the
    /// boolean properties that are set, the body parts, then the headers,
    /// the URL and the method. A step the browser refuses fails the request.
    pub fn to_ffi(&self) -> (steps: Vec<RequestStep>)
        ensures
            steps@.len() == prop_steps(self.properties, self.set_props).len() + self.body@.len() + 3,
            forall|k: int| 0 <= k < prop_steps(self.properties, self.set_props).len() ==>
                steps@[k] == RequestStep::SetBool(prop_steps(self.properties, self.set_props)[k].0,
                    prop_steps(self.properties, self.set_props)[k].1),
            forall|k: int| 0 <= k < self.body@.len() ==>
                is_body_step(#[trigger] steps@[prop_steps(self.properties, self.set_props).len() + k], self.body@[k]),
            steps@[steps@.len() - 3] matches RequestStep::SetText(p, h)
                && p == ffi::PP_URLREQUESTPROPERTY_HEADERS && h@ == self.headers@,
            steps@[steps@.len() - 2] matches RequestStep::SetText(p, u)
                && p == ffi::PP_URLREQUESTPROPERTY_URL && u@ == self.url@,
            steps@[steps@.len() - 1] matches RequestStep::SetText(p, m)
                && p == ffi::PP_URLREQUESTPROPERTY_METHOD && m@ == self.method@,
    {
        let props = self.prop_steps();
        let ghost ps = prop_steps(self.properties, self.set_props);
        let mut steps: Vec<RequestStep> = Vec::new();
        let mut i: usize = 0;
        while i < props.len()
            invariant
                props@ == ps,
                i <= props@.len(),
                steps@.len() == i,
                forall|k: int| 0 <= k < i ==> steps@[k] == RequestStep::SetBool(ps[k].0, ps[k].1),
            decreases props@.len() - i,
        {
            let (p, v) = props[i];
            steps.push(RequestStep::SetBool(p, v));
            i = i + 1;
        }
        let mut j: usize = 0;
        while j < self.body.len()
            invariant
                props@ == ps,
                j <= self.body@.len(),
                steps@.len() == ps.len() + j,
                forall|k: int| 0 <= k < ps.len() ==> steps@[k] == RequestStep::SetBool(ps[k].0, ps[k].1),
                forall|k: int| 0 <= k < j ==> is_body_step(#[trigger] steps@[ps.len() + k], self.body@[k]),
            decreases self.body@.len() - j,
        {
            let step = match &self.body[j] {
                Body::File(slice, time) => {
                    let start = #[verifier::truncate] (slice.view_start() as i64);
                    let len = match slice.view_len() {
                        Some(l) => Some(#[verifier::truncate] (l as i64)),
                        None => None,
                    };
                    RequestStep::AppendFile(slice.unwrap(), start, len, *time)
                },
                Body::Blob(bytes) => RequestStep::AppendBlob(bytes.clone()),
            };
            steps.push(step);
            j = j + 1;
        }
        steps.push(RequestStep::SetText(ffi::PP_URLREQUESTPROPERTY_HEADERS, self.headers.clone()));
        steps.push(RequestStep::SetText(ffi::PP_URLREQUESTPROPERTY_URL, self.url.clone()));
        steps.push(RequestStep::SetText(ffi::PP_URLREQUESTPROPERTY_METHOD, self.method.clone()));
        steps
    }
}

/// A loader whose URL has been opened.
#[derive(Clone, Copy, PartialEq, Eq, Structural, Debug, Hash)]
pub struct OpenedUrlLoader(pub UrlLoader);

impl OpenedUrlLoader {
    pub fn unwrap_loader(&self) -> (l: UrlLoader)
        ensures l == self.0,
    {
        self.0
    }

    /// How much has come in: `reply`, `bytes` and `total` are the answer of
    /// `PPB_URLLoader::GetDownloadProgress(self, &bytes, &total)` and what
    /// it filled in. The progress is read only when the bitwise complement
    /// of the answer is zero.
    pub fn download_progress(&self, reply: PP_Bool, bytes: i64, total: i64) -> (r: Option<(i64, i64)>)
        ensures r == if !reply != 0 { None::<(i64, i64)> } else { Some((bytes, total)) },
    {
        if !reply != 0 { None } else { Some((bytes, total)) }
    }
}

impl Resource for OpenedUrlLoader {
    open spec fn res(&self) -> PP_Resource { self.0.0 }
    open spec fn kind(&self) -> ResourceType { ResourceType::UrlLoaderRes }
    fn unwrap(&self) -> (r: PP_Resource) { self.0.unwrap() }
    fn type_of(&self) -> (t: ResourceType) { self.0.type_of() }
}

impl UrlLoader {
    /// Opening the loader on a request: `reply` is the code that
    /// `PPB_URLLoader::Open(self, info, callback)` returned; the callback is
    /// handed the loader as opened.
    pub fn open(&self, reply: i32) -> (c: Code)
        requires is_known_code(reply),
        ensures c == code_of(reply),
    {
        Code::from_i32(reply)
    }

    /// The loader as the completion of its opening hands it on.
    pub fn opened(self) -> (o: OpenedUrlLoader)
        ensures o.0 == self,
    {
        OpenedUrlLoader(self)
    }
}

impl Instance {
    /// A new URL loader: `created` is the handle that
    /// `PPB_URLLoader::Create(self)` returned, the null handle when it
    /// failed.
    pub fn create_url_loader(&self, created: PP_Resource) -> (r: Option<UrlLoader>)
        ensures r == handle_option(created, |h: PP_Resource| UrlLoader(h)),
    {
        UrlLoader::to_option(&created)
    }

    /// A new browser request: `created` is the handle that
    /// `PPB_URLRequestInfo::Create(self)` returned, the null handle when it
    /// failed.
    pub fn create_url_request_info(&self, created: PP_Resource) -> (r: Option<UrlRequestInfo>)
        ensures r == handle_option(created, |h: PP_Resource| UrlRequestInfo(h)),
    {
        UrlRequestInfo::to_option(&created)
    }
}

/// Each value is given to the browser under the name of its own kind, and
/// no two kinds share a name.
pub proof fn lemma_prop_value_by_name(x: RequestProperties_)
    ensures
        prop_value(x) == ffi::PP_URLREQUESTPROPERTY_ALLOWCROSSORIGINREQUESTS <==> x is AllowCrossOriginRequests,
        prop_value(x) == ffi::PP_URLREQUESTPROPERTY_ALLOWCREDENTIALS <==> x is AllowCredentials,
        prop_value(x) == ffi::PP_URLREQUESTPROPERTY_RECORDUPLOADPROGRESS <==> x is RecordUploadProgress,
        prop_value(x) == ffi::PP_URLREQUESTPROPERTY_RECORDDOWNLOADPROGRESS <==> x is RecordDownloadProgress,
        prop_value(x) == ffi::PP_URLREQUESTPROPERTY_FOLLOWREDIRECTS <==> x is FollowRedirects,
        prop_value(x) == ffi::PP_URLREQUESTPROPERTY_STREAMTOFILE <==> x is StreamToFile,
{
}

/// A property set holds each property in the field named for it.
pub proof fn lemma_property_fields_by_name(r: RequestProperties)
    ensures
        r.has(RequestProperties_::AllowCrossOriginRequests) == r.allow_cross_origin_requests,
        r.has(RequestProperties_::AllowCredentials) == r.allow_credentials,
        r.has(RequestProperties_::RecordUploadProgress) == r.record_upload_progress,
        r.has(RequestProperties_::RecordDownloadProgress) == r.record_download_progress,
        r.has(RequestProperties_::FollowRedirects) == r.follow_redirects,
        r.has(RequestProperties_::StreamToFile) == r.stream_to_file,
{
}

/// Properties are ordered as they are declared: cross-origin requests,
/// credentials, upload progress, download progress, redirects, streaming to
/// a file.
pub proof fn lemma_property_positions_in_declaration_order(p: RequestProperties_)
    ensures
        prop_index(p) == 0 <==> p is AllowCrossOriginRequests,
        prop_index(p) == 1 <==> p is AllowCredentials,
        prop_index(p) == 2 <==> p is RecordUploadProgress,
        prop_index(p) == 3 <==> p is RecordDownloadProgress,
        prop_index(p) == 4 <==> p is FollowRedirects,
        prop_index(p) == 5 <==> p is StreamToFile,
{
}

} // verus!
