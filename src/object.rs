//! Request shapes of the object operations: the URL of each call, the
//! download request builder, and the paging state of a listing.

use vstd::prelude::*;

verus! {

/// Root of the JSON API.
pub open spec fn api_root() -> Seq<char> {
    "https://www.googleapis.com/storage/v1"@
}

/// Root of the upload endpoint, which object creation uses.
pub open spec fn upload_root() -> Seq<char> {
    "https://storage.googleapis.com/upload/storage/v1/b"@
}

/// Bytes that stand for themselves in a path segment or query value: ASCII
/// letters and digits and `*`, `-`, `.`, `_`.
pub open spec fn is_unreserved(b: u8) -> bool {
    (48 <= b <= 57) || (65 <= b <= 90) || (97 <= b <= 122) || b == 42 || b == 45 || b == 46
        || b == 95
}

/// Upper-case hex digit of a value below 16.
pub open spec fn hex_digit(n: u8) -> u8 {
    if n < 10 {
        (48 + n) as u8
    } else {
        (55 + n) as u8
    }
}

/// One byte, percent-encoded.
pub open spec fn encode_byte(b: u8) -> Seq<u8> {
    if is_unreserved(b) {
        seq![b]
    } else {
        seq![37u8, hex_digit(b / 16), hex_digit(b % 16)]
    }
}

pub open spec fn percent_encoded(bs: Seq<u8>) -> Seq<u8>
    decreases bs.len(),
{
    if bs.len() == 0 {
        Seq::empty()
    } else {
        percent_encoded(bs.drop_last()) + encode_byte(bs.last())
    }
}

pub open spec fn ascii_chars(bs: Seq<u8>) -> Seq<char> {
    bs.map_values(|b: u8| b as char)
}

/// A string, percent-encoded byte by byte over its UTF-8 form.
pub open spec fn encoded(s: Seq<char>) -> Seq<char> {
    ascii_chars(percent_encoded(vstd::utf8::encode_utf8(s)))
}

/// Relies on String::from_utf8: bytes that are all ASCII are valid UTF-8 and
/// decode to the characters of the same values.
#[verifier::external_body]
fn ascii_string(bytes: Vec<u8>) -> (r: String)
    requires
        forall|i: int| 0 <= i < bytes@.len() ==> bytes@[i] < 128,
    ensures
        r@ == ascii_chars(bytes@),
{
    String::from_utf8(bytes).unwrap_or_default()
}

fn hex_digit_exec(n: u8) -> (r: u8)
    requires
        n < 16,
    ensures
        r == hex_digit(n),
        r < 128,
{
    if n < 10 {
        48 + n
    } else {
        55 + n
    }
}

/// Percent-encode a string for use as one path segment or query value.
pub fn percent_encode(input: &str) -> (r: String)
    ensures
        r@ == encoded(input@),
{
    let bytes = input.as_bytes();
    let mut out: Vec<u8> = Vec::new();
    let mut i: usize = 0;
    while i < bytes.len()
        invariant
            i <= bytes@.len(),
            bytes@ == vstd::utf8::encode_utf8(input@),
            out@ == percent_encoded(bytes@.subrange(0, i as int)),
            forall|j: int| 0 <= j < out@.len() ==> out@[j] < 128,
        decreases bytes@.len() - i,
    {
        let b = bytes[i];
        let ghost before = out@;
        if (48 <= b && b <= 57) || (65 <= b && b <= 90) || (97 <= b && b <= 122) || b == 42
            || b == 45 || b == 46 || b == 95 {
            out.push(b);
        } else {
            out.push(37);
            out.push(hex_digit_exec(b / 16));
            out.push(hex_digit_exec(b % 16));
        }
        proof {
            let next = bytes@.subrange(0, i + 1);
            assert(next.drop_last() =~= bytes@.subrange(0, i as int));
            assert(out@ =~= before + encode_byte(b));
        }
        i = i + 1;
    }
    assert(bytes@.subrange(0, bytes@.len() as int) =~= bytes@);
    ascii_string(out)
}

/// The address of one object.
pub open spec fn object_path(bucket: Seq<char>, name: Seq<char>) -> Seq<char> {
    api_root() + "/b/"@ + encoded(bucket) + "/o/"@ + encoded(name)
}

fn object_path_exec(bucket: &str, name: &str) -> (r: String)
    ensures
        r@ == object_path(bucket@, name@),
{
    let mut url = String::from_str("https://www.googleapis.com/storage/v1");
    url.append("/b/");
    url.append(percent_encode(bucket).as_str());
    url.append("/o/");
    url.append(percent_encode(name).as_str());
    url
}

/// Operations on objects: the request that each one makes. The transport
/// that sends them lives with the caller.
pub struct ObjectClient;

impl ObjectClient {
    /// URL that uploads a new object named `filename` into `bucket`.
    pub fn create_url(&self, bucket: &str, filename: &str) -> (r: String)
        ensures
            r@ == upload_root() + "/"@ + encoded(bucket@) + "/o?uploadType=media&name="@
                + encoded(filename@),
    {
        let mut url = String::from_str("https://storage.googleapis.com/upload/storage/v1/b");
        url.append("/");
        url.append(percent_encode(bucket).as_str());
        url.append("/o?uploadType=media&name=");
        url.append(percent_encode(filename).as_str());
        url
    }

    /// URL that lists the objects of `bucket`.
    pub fn list_url(&self, bucket: &str) -> (r: String)
        ensures
            r@ == api_root() + "/b/"@ + encoded(bucket@) + "/o"@,
    {
        let mut url = String::from_str("https://www.googleapis.com/storage/v1");
        url.append("/b/");
        url.append(percent_encode(bucket).as_str());
        url.append("/o");
        url
    }

    /// URL that reads, updates or deletes one object.
    pub fn object_url(&self, bucket: &str, file_name: &str) -> (r: String)
        ensures
            r@ == object_path(bucket@, file_name@),
    {
        object_path_exec(bucket, file_name)
    }

    /// URL that composes objects of `bucket` into `destination_object`.
    pub fn compose_url(&self, bucket: &str, destination_object: &str) -> (r: String)
        ensures
            r@ == object_path(bucket@, destination_object@) + "/compose"@,
    {
        let mut url = object_path_exec(bucket, destination_object);
        url.append("/compose");
        url
    }

    /// URL that copies an object to `destination_bucket` under `path`.
    pub fn copy_url(&self, bucket: &str, name: &str, destination_bucket: &str, path: &str) -> (r:
        String)
        ensures
            r@ == object_path(bucket@, name@) + "/copyTo"@ + "/b/"@ + encoded(destination_bucket@)
                + "/o/"@ + encoded(path@),
    {
        let mut url = object_path_exec(bucket, name);
        url.append("/copyTo");
        url.append("/b/");
        url.append(percent_encode(destination_bucket).as_str());
        url.append("/o/");
        url.append(percent_encode(path).as_str());
        url
    }

    /// URL that rewrites an object to `destination_bucket` under `path`.
    pub fn rewrite_url(&self, bucket: &str, name: &str, destination_bucket: &str, path: &str) -> (r:
        String)
        ensures
            r@ == object_path(bucket@, name@) + "/rewriteTo"@ + "/b/"@ + encoded(
                destination_bucket@,
            ) + "/o/"@ + encoded(path@),
    {
        let mut url = object_path_exec(bucket, name);
        url.append("/rewriteTo");
        url.append("/b/");
        url.append(percent_encode(destination_bucket).as_str());
        url.append("/o/");
        url.append(percent_encode(path).as_str());
        url
    }

    /// A builder for downloading the content of one object.
    pub fn download_request(&self, bucket: &str, file_name: &str) -> (r: DownloadRequestBuilder)
        ensures
            r@.url == object_path(bucket@, file_name@) + "?alt=media"@,
            r@.range is None,
    {
        DownloadRequestBuilder::new(bucket, file_name)
    }
}

/// A builder used to construct a download request.
pub struct DownloadRequestBuilder {
    url: String,
    range: Option<String>,
}

pub struct DownloadView {
    pub url: Seq<char>,
    pub range: Option<Seq<char>>,
}

impl View for DownloadRequestBuilder {
    type V = DownloadView;

    closed spec fn view(&self) -> DownloadView {
        DownloadView {
            url: self.url@,
            range: match self.range {
                Some(r) => Some(r@),
                None => None,
            },
        }
    }
}

impl DownloadRequestBuilder {
    /// Create a new request builder for the media of one object.
    pub fn new(bucket: &str, file_name: &str) -> (r: Self)
        ensures
            r@.url == object_path(bucket@, file_name@) + "?alt=media"@,
            r@.range is None,
    {
        let mut url = object_path_exec(bucket, file_name);
        url.append("?alt=media");
        DownloadRequestBuilder { url, range: None }
    }

    /// Specify a range of bytes to download, as the value of a `Range` header.
    pub fn with_range(self, range: String) -> (r: Self)
        ensures
            r@.url == self@.url,
            r@.range == Some(range@),
    {
        DownloadRequestBuilder { range: Some(range), ..self }
    }

    /// The URL the request goes to.
    pub fn url(&self) -> (r: &str)
        ensures
            r@ == self@.url,
    {
        self.url.as_str()
    }

    /// The byte range asked for, if any.
    pub fn range(&self) -> (r: Option<&str>)
        ensures
            match r {
                Some(s) => self@.range == Some(s@),
                None => self@.range is None,
            },
    {
        match &self.range {
            Some(s) => Some(s.as_str()),
            None => None,
        }
    }
}

/// Where a listing stands: the page to ask for next, and how many results
/// the caller still wants (`None`: no limit).
pub struct ListCursor {
    pub page_token: Option<String>,
    pub max_results: Option<usize>,
}

/// The paging state of a listing.
pub enum ListState {
    /// No page fetched yet.
    Start(ListCursor),
    /// Pages fetched, and the service said there are more.
    HasMore(ListCursor),
    /// The last page has been handed out.
    Done,
}

pub open spec fn remaining_after(max_results: Option<usize>, items: usize) -> Option<usize> {
    match max_results {
        Some(rem) => Some(
            if rem >= items {
                (rem - items) as usize
            } else {
                0usize
            },
        ),
        None => None,
    }
}

impl ListState {
    pub open spec fn cursor_spec(&self) -> Option<ListCursor> {
        match self {
            ListState::Start(c) => Some(*c),
            ListState::HasMore(c) => Some(*c),
            ListState::Done => None,
        }
    }

    /// A listing that starts from `page_token` and yields at most
    /// `max_results` results.
    pub fn new(page_token: Option<String>, max_results: Option<usize>) -> (r: Self)
        ensures
            r matches ListState::Start(c) && c.page_token == page_token && c.max_results
                == max_results,
    {
        ListState::Start(ListCursor { page_token, max_results })
    }

    /// The cursor of the next page to ask for; `None` once the listing is
    /// over, because the last page came or no more results are wanted.
    pub fn next_request(&self) -> (r: Option<&ListCursor>)
        ensures
            match self.cursor_spec() {
                Some(c) => if c.max_results == Some(0usize) {
                    r is None
                } else {
                    r == Some(&c)
                },
                None => r is None,
            },
    {
        match self {
            ListState::Start(c) | ListState::HasMore(c) => {
                if c.max_results == Some(0usize) {
                    None
                } else {
                    Some(c)
                }
            },
            ListState::Done => None,
        }
    }

    /// The state after a page of `items` results came back with
    /// `next_page_token`: more pages follow only where the service gave a
    /// token, and the results still wanted drop by the page's size.
    pub fn after_page(self, next_page_token: Option<String>, items: usize) -> (r: Self)
        ensures
            match (self.cursor_spec(), next_page_token) {
                (Some(c), Some(t)) => r matches ListState::HasMore(n) && n.page_token == Some(t)
                    && n.max_results == remaining_after(c.max_results, items),
                _ => r is Done,
            },
    {
        match next_page_token {
            Some(t) => match self {
                ListState::Start(c) | ListState::HasMore(c) => {
                    let max_results = match c.max_results {
                        Some(rem) => Some(rem.saturating_sub(items)),
                        None => None,
                    };
                    ListState::HasMore(ListCursor { page_token: Some(t), max_results })
                },
                ListState::Done => ListState::Done,
            },
            None => ListState::Done,
        }
    }
}

} // verus!
