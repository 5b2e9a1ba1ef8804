use ppapi::ffi;
use ppapi::fs::{FileIo, SliceIo};
use ppapi::instance::Instance;
use ppapi::url::{Body, RequestInfo, RequestProperties_, RequestStep, UrlLoader, UrlRequestInfo};

fn request() -> RequestInfo {
    RequestInfo::new("https://example.net/".to_string(), "GET".to_string(), None, None)
}

#[test]
fn property_index_roundtrips() {
    for i in 0..6usize {
        assert_eq!(RequestProperties_::from_usize(i).to_usize(), i);
    }
    assert_eq!(RequestProperties_::StreamToFile.to_ffi(), ffi::PP_URLREQUESTPROPERTY_STREAMTOFILE);
    assert_eq!(RequestProperties_::AllowCredentials.to_ffi(), ffi::PP_URLREQUESTPROPERTY_ALLOWCREDENTIALS);
}

#[test]
fn set_and_unset_properties() {
    let mut r = request();
    assert!(!r.set_props.contains(&RequestProperties_::FollowRedirects));
    r.set_prop(RequestProperties_::FollowRedirects, true);
    assert!(r.set_props.contains(&RequestProperties_::FollowRedirects));
    assert!(r.properties.contains(&RequestProperties_::FollowRedirects));
    assert!(r.unset_prop(RequestProperties_::FollowRedirects));
    assert!(!r.unset_prop(RequestProperties_::FollowRedirects));
    // The value stays when the mark goes.
    assert!(r.properties.contains(&RequestProperties_::FollowRedirects));
    assert!(r.set_prop_value(RequestProperties_::FollowRedirects, false));
    assert!(!r.set_prop_value(RequestProperties_::FollowRedirects, true));
}

#[test]
fn property_steps_true_then_false_in_order() {
    let mut r = request();
    r.set_prop(RequestProperties_::StreamToFile, false);
    r.set_prop(RequestProperties_::AllowCredentials, true);
    r.set_prop(RequestProperties_::RecordUploadProgress, false);
    r.set_prop(RequestProperties_::FollowRedirects, true);
    r.set_prop_value(RequestProperties_::AllowCrossOriginRequests, true);
    let steps = r.prop_steps();
    assert_eq!(steps, vec![
        (ffi::PP_URLREQUESTPROPERTY_ALLOWCREDENTIALS, true),
        (ffi::PP_URLREQUESTPROPERTY_FOLLOWREDIRECTS, true),
        (ffi::PP_URLREQUESTPROPERTY_RECORDUPLOADPROGRESS, false),
        (ffi::PP_URLREQUESTPROPERTY_STREAMTOFILE, false),
    ]);
}

#[test]
fn request_steps_end_with_headers_url_method() {
    let mut r = RequestInfo::new("https://a.b/".to_string(), "POST".to_string(),
        Some(Body::Blob(vec![1, 2, 3])), Some("X: y\r\n".to_string()));
    r.body.push(Body::File(SliceIo(FileIo(7), 10, Some(4)), Some(99)));
    r.set_prop(RequestProperties_::FollowRedirects, true);
    let steps = r.to_ffi();
    assert_eq!(steps.len(), 6);
    assert!(matches!(steps[0], RequestStep::SetBool(p, true) if p == ffi::PP_URLREQUESTPROPERTY_FOLLOWREDIRECTS));
    assert!(matches!(&steps[1], RequestStep::AppendBlob(b) if *b == vec![1u8, 2, 3]));
    assert!(matches!(steps[2], RequestStep::AppendFile(7, 10, Some(0), Some(99))));
    assert!(matches!(&steps[3], RequestStep::SetText(p, h) if *p == ffi::PP_URLREQUESTPROPERTY_HEADERS && h == "X: y\r\n"));
    assert!(matches!(&steps[4], RequestStep::SetText(p, u) if *p == ffi::PP_URLREQUESTPROPERTY_URL && u == "https://a.b/"));
    assert!(matches!(&steps[5], RequestStep::SetText(p, m) if *p == ffi::PP_URLREQUESTPROPERTY_METHOD && m == "POST"));
}

#[test]
fn file_body_window_length() {
    let mut r = request();
    r.body.push(Body::File(SliceIo(FileIo(2), 5, Some(12)), None));
    r.body.push(Body::File(SliceIo(FileIo(2), 5, None), None));
    let steps = r.to_ffi();
    assert!(matches!(steps[0], RequestStep::AppendFile(2, 5, Some(7), None)));
    assert!(matches!(steps[1], RequestStep::AppendFile(2, 5, None, None)));
}

#[test]
fn loader_creation_and_opening() {
    let inst = Instance::new(1);
    assert_eq!(inst.create_url_loader(0), None);
    assert_eq!(inst.create_url_loader(3), Some(UrlLoader(3)));
    assert_eq!(inst.create_url_request_info(4), Some(UrlRequestInfo(4)));
    let l = UrlLoader::new(3);
    assert_eq!(l.open(ffi::PP_OK_COMPLETIONPENDING), ppapi::code::Code::CompletionPending);
    let opened = l.opened();
    assert_eq!(opened.unwrap_loader(), l);
}

#[test]
fn download_progress_reads_only_all_ones() {
    let opened = UrlLoader::new(3).opened();
    assert_eq!(opened.download_progress(ffi::PP_TRUE, 10, 20), None);
    assert_eq!(opened.download_progress(ffi::PP_FALSE, 10, 20), None);
    assert_eq!(opened.download_progress(-1, 10, 20), Some((10, 20)));
}

#[test]
fn only_marked_properties_are_set() {
    let mut r = request();
    r.set_prop_value(RequestProperties_::StreamToFile, true);
    assert!(r.prop_steps().is_empty());
    r.set_prop(RequestProperties_::RecordDownloadProgress, false);
    assert_eq!(r.prop_steps(), vec![(ffi::PP_URLREQUESTPROPERTY_RECORDDOWNLOADPROGRESS, false)]);
}

#[test]
fn requests_are_made_from_a_url_and_a_method() {
    let r = RequestInfo::try_new("HTTPS://Example.net", "POST", None, Some("A: b".to_string())).unwrap();
    assert_eq!(r.url, "https://example.net/");
    assert_eq!(r.method, "POST");
    assert_eq!(r.headers, "A: b");
    assert!(r.body.is_empty());
    assert!(RequestInfo::try_new("not a url", "GET", None, None).is_none());
    assert!(RequestInfo::try_new("https://example.net/", "GE T", None, None).is_none());
}
