use zerogallery::{
    check_status, classify_status, range_header, DownloadProgress, Endpoint, Error, Method,
    StatusClass, VideoHeaders, ZeroGalleryClient,
};

#[test]
fn unauthorized_on_every_endpoint() {
    assert_eq!(classify_status(401, false), StatusClass::Unauthorized);
    assert_eq!(classify_status(401, true), StatusClass::Unauthorized);
    let r = check_status(401, true, String::new(), "denied".to_string());
    assert!(matches!(r, Err(Error::Unauthorized)));
}

#[test]
fn not_found_names_the_file() {
    let e = Endpoint::Data(999);
    let r = check_status(404, false, e.not_found_description(), String::new());
    match r {
        Err(Error::NotFound(d)) => assert_eq!(d, "Data 999 not found"),
        _ => panic!("expected a not-found error"),
    }
    assert_eq!(Endpoint::Preview(7).not_found_description(), "Preview for data 7 not found");
    assert_eq!(Endpoint::Albums.not_found_description(), "Resource not found");
}

#[test]
fn partial_content_only_for_ranged_reads() {
    assert_eq!(classify_status(200, false), StatusClass::Success);
    assert_eq!(classify_status(206, true), StatusClass::Success);
    assert_eq!(classify_status(206, false), StatusClass::Failed);
    assert!(check_status(206, true, String::new(), String::new()).is_ok());
}

#[test]
fn other_status_is_an_api_error() {
    let r = check_status(500, false, String::new(), "boom".to_string());
    match r {
        Err(Error::Api { status, message }) => {
            assert_eq!(status, 500);
            assert_eq!(message, "boom");
        }
        _ => panic!("expected an API error"),
    }
}

#[test]
fn error_messages() {
    let e = Error::Api { status: 503, message: "busy".to_string() };
    assert_eq!(e.message(), "API error: status=503, message=busy");
    assert_eq!(Error::Unauthorized.message(), "Unauthorized access");
    assert_eq!(Error::NotFound("Data 1 not found".to_string()).message(), "Resource not found: Data 1 not found");
    assert_eq!(Error::InvalidResponse.message(), "Invalid response format");
}

#[test]
fn range_header_forms() {
    assert_eq!(range_header(Some(0), Some(1023)), Some("bytes=0-1023".to_string()));
    assert_eq!(range_header(Some(500), None), Some("bytes=500-".to_string()));
    assert_eq!(range_header(None, Some(200)), Some("bytes=-200".to_string()));
    assert_eq!(range_header(None, None), None);
}

#[test]
fn video_headers_echo_content_range() {
    let h = VideoHeaders {
        content_range: Some("bytes 0-1023/2048".to_string()),
        content_length: Some("1024".to_string()),
        content_type: Some("video/mp4".to_string()),
    };
    assert_eq!(h.content_range, Some("bytes 0-1023/2048".to_string()));
    assert_eq!(h.content_type, Some("video/mp4".to_string()));
}

#[test]
fn endpoint_paths_and_methods() {
    assert_eq!(Endpoint::Version.path(), "/api/version");
    assert_eq!(Endpoint::Albums.path(), "/api/albums");
    assert_eq!(Endpoint::CreateAlbum.path(), "/api/album");
    assert_eq!(Endpoint::DeleteAlbum(1).path(), "/api/album/1");
    assert_eq!(Endpoint::DataWithoutAlbums.path(), "/api/data");
    assert_eq!(Endpoint::AlbumData(1).path(), "/api/album/1/data");
    assert_eq!(Endpoint::Upload(1).path(), "/api/upload/1");
    assert_eq!(Endpoint::Upload(0).path(), "/api/upload");
    assert_eq!(Endpoint::Preview(5).path(), "/api/preview/5");
    assert_eq!(Endpoint::Data(999).path(), "/api/data/999");
    assert_eq!(Endpoint::Upload(1).method(), Method::Post);
    assert_eq!(Endpoint::DeleteData(1).method(), Method::Delete);
    assert_eq!(Endpoint::Albums.method(), Method::Get);
}

#[test]
fn client_urls_and_token() {
    let mut c = ZeroGalleryClient::with_token("http://host:8080//", Some("test-token".to_string()));
    assert_eq!(c.base_url(), "http://host:8080");
    assert_eq!(c.access_token(), Some("test-token"));
    assert_eq!(c.url(&Endpoint::Upload(1)), "http://host:8080/api/upload/1");
    c.set_access_token(None);
    assert_eq!(c.access_token(), None);
    let plain = ZeroGalleryClient::new("http://host");
    assert_eq!(plain.url(&Endpoint::Albums), "http://host/api/albums");
}

#[test]
fn progress_never_exceeds_known_total() {
    let mut p = DownloadProgress::from_content_length(Some("100"));
    assert_eq!(p.total, 100);
    assert_eq!(p.record_chunk(40), Some((40, 100)));
    assert_eq!(p.record_chunk(60), Some((100, 100)));
    assert_eq!(p.record_chunk(1), None);
    assert_eq!(p.downloaded, 101);
}

#[test]
fn progress_with_unknown_total() {
    let mut p = DownloadProgress::from_content_length(Some("abc"));
    assert_eq!(p.total, 0);
    assert_eq!(p.record_chunk(7), Some((7, 0)));
    let mut q = DownloadProgress::from_content_length(None);
    assert_eq!(q.record_chunk(3), Some((3, 0)));
    let mut r = DownloadProgress::new(12);
    for len in [5u64, 4, 3] {
        let reported = r.record_chunk(len).unwrap();
        assert!(reported.0 <= reported.1);
    }
    assert_eq!(r.downloaded, 12);
}
