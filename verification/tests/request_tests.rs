use parfetch::error::DownloadError;
use parfetch::range::ByteRange;
use parfetch::request::{filename_from_url, name_or_default, DownloadRequest, DEFAULT_FILE_NAME};
use parfetch::url::{chars_of, url_path_segment};

#[test]
fn file_name_is_the_last_segment_of_the_path() {
    assert_eq!(filename_from_url("https://example.com/files/archive.tar.gz"), "archive.tar.gz");
    assert_eq!(filename_from_url("http://host/a/b/c.bin"), "c.bin");
    assert_eq!(filename_from_url("https://user:pw@host:8080/dir/name.tar"), "name.tar");
    assert_eq!(filename_from_url("file:///home/u/x.txt"), "x.txt");
    assert_eq!(filename_from_url("//cdn.example.com/p/q.txt"), "q.txt");
    assert_eq!(filename_from_url("https://h/a b.txt"), "a b.txt");
    assert_eq!(filename_from_url("https://h/\u{fc}ber.bin"), "\u{fc}ber.bin");
}

#[test]
fn file_name_of_a_text_without_scheme() {
    assert_eq!(filename_from_url("file.iso"), "file.iso");
    assert_eq!(filename_from_url("a/b/c.bin"), "c.bin");
    assert_eq!(filename_from_url("/srv/data.tar"), "data.tar");
    assert_eq!(filename_from_url("example.com:8080/a.zip"), "a.zip");
}

#[test]
fn file_name_leaves_out_query_and_fragment() {
    assert_eq!(filename_from_url("https://example.com/a.zip?x=1/2#frag"), "a.zip");
    assert_eq!(filename_from_url("https://example.com/a.zip#frag/x"), "a.zip");
    assert_eq!(filename_from_url("https://example.com/dir/a.zip?name=b.zip"), "a.zip");
    assert_eq!(filename_from_url("https://example.com?file=a.zip"), "download.bin");
}

#[test]
fn file_name_skips_trailing_slashes() {
    assert_eq!(filename_from_url("https://example.com/files/"), "files");
    assert_eq!(filename_from_url("https://example.com/files///"), "files");
}

#[test]
fn url_without_a_path_segment_gets_the_default_name() {
    assert_eq!(DEFAULT_FILE_NAME, "download.bin");
    assert_eq!(filename_from_url("https://example.com/"), "download.bin");
    assert_eq!(filename_from_url("https://example.com"), "download.bin");
    assert_eq!(filename_from_url("https://example.com///"), "download.bin");
    assert_eq!(filename_from_url("https://"), "download.bin");
    assert_eq!(filename_from_url(""), "download.bin");
    assert_eq!(filename_from_url("/"), "download.bin");
}

#[test]
fn segments_that_name_a_directory_get_the_default_name() {
    assert_eq!(filename_from_url("https://example.com/a/.."), "download.bin");
    assert_eq!(filename_from_url("https://example.com/a/./"), "download.bin");
    assert_eq!(filename_from_url("https://example.com/."), "download.bin");
    assert_eq!(filename_from_url(".."), "download.bin");
    assert_eq!(filename_from_url("."), "download.bin");
    assert_eq!(filename_from_url("https://example.com/..."), "...");
    assert_eq!(filename_from_url("https://example.com/.hidden"), ".hidden");
}

#[test]
fn derived_names_are_single_path_components() {
    let urls = [
        "", "/", "a", "a/b", "https://example.com", "https://example.com/x/y/", "x://y/..",
        "https://example.com/a/b.bin?q#f", "?/a", "#/a", "://", ":/a", "a:", "a:b/c/",
    ];
    for url in urls {
        let name = filename_from_url(url);
        assert!(!name.is_empty(), "{url:?}");
        assert!(!name.contains('/'), "{url:?}");
        assert!(name != "." && name != "..", "{url:?}");
    }
}

#[test]
fn path_segment_of_a_url() {
    assert_eq!(url_path_segment("https://example.com/files/archive.tar.gz"), "archive.tar.gz");
    assert_eq!(url_path_segment("https://example.com/files/"), "files");
    assert_eq!(url_path_segment("https://example.com/a/./"), ".");
    assert_eq!(url_path_segment("https://example.com/a/.."), "..");
    assert_eq!(url_path_segment("https://example.com/"), "");
    assert_eq!(url_path_segment("https://example.com"), "");
    assert_eq!(url_path_segment("https://example.com:8080"), "");
    assert_eq!(url_path_segment("https://example.com/a?b/c"), "a");
    assert_eq!(url_path_segment("https://example.com/a#b/c"), "a");
    assert_eq!(url_path_segment("mailto:someone"), "someone");
    assert_eq!(url_path_segment(":x/y"), "y");
    assert_eq!(url_path_segment("/a:b"), "a:b");
    assert_eq!(url_path_segment(""), "");
}

#[test]
fn characters_of_a_string() {
    assert_eq!(chars_of(""), Vec::<char>::new());
    assert_eq!(chars_of("a/\u{fc}"), vec!['a', '/', '\u{fc}']);
}

#[test]
fn default_name_is_used_where_none_was_found() {
    assert_eq!(name_or_default(None), "download.bin");
    assert_eq!(name_or_default(Some(String::from("x.zip"))), "x.zip");
    assert_eq!(name_or_default(Some(String::new())), "");
}

#[test]
fn request_keeps_the_given_output() {
    let request = DownloadRequest::new(
        String::from("https://example.com/a.zip"),
        4,
        Some(String::from("out/b.zip")),
    );
    assert_eq!(
        request,
        Ok(DownloadRequest {
            url: String::from("https://example.com/a.zip"),
            jobs: 4,
            destination: String::from("out/b.zip"),
        })
    );
}

#[test]
fn request_names_the_output_after_the_url() {
    let request = DownloadRequest::new(String::from("https://example.com/a.zip"), 1, None).unwrap();
    assert_eq!(request.destination, "a.zip");
    assert_eq!(request.jobs, 1);
    let request = DownloadRequest::new(String::new(), 2, None).unwrap();
    assert_eq!(request.destination, "download.bin");
    let request = DownloadRequest::new(String::from("https://example.com/"), 2, None).unwrap();
    assert_eq!(request.destination, "download.bin");
}

#[test]
fn request_with_zero_jobs_is_refused() {
    assert_eq!(
        DownloadRequest::new(String::from("https://example.com/a.zip"), 0, None),
        Err(DownloadError::Configuration)
    );
    assert_eq!(
        DownloadRequest::new(String::from("u"), 0, Some(String::from("o"))),
        Err(DownloadError::Configuration)
    );
}

#[test]
fn errors_name_their_kind_and_range() {
    let range = ByteRange { start: 3, end: 5 };
    assert_eq!(DownloadError::Transport { range: None }.kind_name(), "transport error");
    assert_eq!(DownloadError::MissingLength.kind_name(), "missing length");
    assert_eq!(DownloadError::Write { range: Some(range) }.kind_name(), "write error");
    assert_eq!(DownloadError::Configuration.kind_name(), "configuration error");
    assert_eq!(DownloadError::Transport { range: Some(range) }.range(), Some(range));
    assert_eq!(DownloadError::Write { range: Some(range) }.range(), Some(range));
    assert_eq!(DownloadError::Write { range: None }.range(), None);
    assert_eq!(DownloadError::MissingLength.range(), None);
    assert_eq!(DownloadError::Configuration.range(), None);
}

#[test]
fn failures_of_the_whole_resource_name_no_range() {
    assert_eq!(DownloadError::request_failure(), DownloadError::Transport { range: None });
    assert_eq!(DownloadError::output_failure(), DownloadError::Write { range: None });
}
