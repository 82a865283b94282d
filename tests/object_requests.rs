use cloud_storage::object::{percent_encode, DownloadRequestBuilder, ListState, ObjectClient};

#[test]
fn percent_encode_keeps_unreserved() {
    assert_eq!(percent_encode("abcXYZ019*-._"), "abcXYZ019*-._");
    assert_eq!(percent_encode(""), "");
}

#[test]
fn percent_encode_escapes_the_rest() {
    assert_eq!(percent_encode("path/to/my file.png"), "path%2Fto%2Fmy%20file.png");
    assert_eq!(percent_encode("a~b?c=d&e"), "a%7Eb%3Fc%3Dd%26e");
    assert_eq!(percent_encode("é"), "%C3%A9");
}

#[test]
fn create_url_uses_upload_root() {
    let url = ObjectClient.create_url("cat-photos", "recently read cat.png");
    assert_eq!(
        url,
        "https://storage.googleapis.com/upload/storage/v1/b/cat-photos/o?uploadType=media&name=recently%20read%20cat.png"
    );
}

#[test]
fn object_urls() {
    let c = ObjectClient;
    assert_eq!(c.list_url("my_bucket"), "https://www.googleapis.com/storage/v1/b/my_bucket/o");
    assert_eq!(
        c.object_url("my_bucket", "path/to/my/file.png"),
        "https://www.googleapis.com/storage/v1/b/my_bucket/o/path%2Fto%2Fmy%2Ffile.png"
    );
    assert_eq!(
        c.compose_url("my_bucket", "test-concatted-file"),
        "https://www.googleapis.com/storage/v1/b/my_bucket/o/test-concatted-file/compose"
    );
    assert_eq!(
        c.copy_url("my_bucket", "file1", "my_other_bucket", "file2"),
        "https://www.googleapis.com/storage/v1/b/my_bucket/o/file1/copyTo/b/my_other_bucket/o/file2"
    );
    assert_eq!(
        c.rewrite_url("my_bucket", "file1", "my_other_bucket", "file2"),
        "https://www.googleapis.com/storage/v1/b/my_bucket/o/file1/rewriteTo/b/my_other_bucket/o/file2"
    );
}

#[test]
fn download_request_with_range() {
    let req = ObjectClient.download_request("my_bucket", "a b");
    assert_eq!(req.url(), "https://www.googleapis.com/storage/v1/b/my_bucket/o/a%20b?alt=media");
    assert_eq!(req.range(), None);
    let req = req.with_range("bytes=0-99".to_string());
    assert_eq!(req.range(), Some("bytes=0-99"));
    assert_eq!(req.url(), "https://www.googleapis.com/storage/v1/b/my_bucket/o/a%20b?alt=media");
    let direct = DownloadRequestBuilder::new("my_bucket", "a b");
    assert_eq!(direct.url(), req.url());
}

#[test]
fn listing_pages_until_no_token() {
    let state = ListState::new(None, Some(5));
    let c = state.next_request().unwrap();
    assert_eq!(c.page_token, None);
    assert_eq!(c.max_results, Some(5));
    let state = state.after_page(Some("p2".to_string()), 3);
    let c = state.next_request().unwrap();
    assert_eq!(c.page_token, Some("p2".to_string()));
    assert_eq!(c.max_results, Some(2));
    let state = state.after_page(Some("p3".to_string()), 3);
    // more pages exist, but no more results are wanted
    assert!(state.next_request().is_none());
    assert!(matches!(state, ListState::HasMore(_)));
}

#[test]
fn listing_without_limit_ends_on_last_page() {
    let state = ListState::new(Some("p1".to_string()), None);
    let state = state.after_page(Some("p2".to_string()), 1000);
    assert_eq!(state.next_request().unwrap().max_results, None);
    let state = state.after_page(None, 10);
    assert!(matches!(state, ListState::Done));
    assert!(state.next_request().is_none());
    let state = state.after_page(Some("p9".to_string()), 1);
    assert!(matches!(state, ListState::Done));
}
