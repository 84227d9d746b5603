use report_server::base_name;
use report_server::build_text_page;
use report_server::is_file_older_than_60_seconds;
use report_server::needs_regeneration;
use report_server::reply_for_raw;
use report_server::reply_for_text;
use report_server::route;
use report_server::FileReadError;
use report_server::Reply;
use report_server::Route;

#[test]
fn missing_report_is_stale() {
    assert!(is_file_older_than_60_seconds(None, 0));
    assert!(is_file_older_than_60_seconds(None, 1_000_000));
    assert!(needs_regeneration(None, 500));
}

#[test]
fn fresh_report_is_not_regenerated() {
    let now: u64 = 1_700_000_000;
    assert!(!is_file_older_than_60_seconds(Some(now), now));
    assert!(!needs_regeneration(Some(now), now));
}

#[test]
fn second_request_within_window_skips_generator() {
    let generated: u64 = 1_700_000_000;
    assert!(!needs_regeneration(Some(generated), generated + 1));
    assert!(!needs_regeneration(Some(generated), generated + 59));
    assert!(!needs_regeneration(Some(generated), generated + 60));
}

#[test]
fn sixty_second_boundary_is_fresh() {
    let modified: u64 = 1_000;
    assert!(!is_file_older_than_60_seconds(Some(modified), modified + 60));
    assert!(is_file_older_than_60_seconds(Some(modified), modified + 61));
}

#[test]
fn future_modification_time_is_fresh() {
    assert!(!is_file_older_than_60_seconds(Some(2_000), 1_000));
}

#[test]
fn root_path_routes_to_report() {
    assert!(matches!(route("/"), Route::Report));
}

#[test]
fn text_suffix_routes_to_text_page() {
    match route("/notes.txt") {
        Route::TextPage(f) => assert_eq!(f, "notes.txt"),
        _ => panic!("expected the text-page route"),
    }
}

#[test]
fn nested_text_path_keeps_rest_of_path() {
    match route("/a/b/notes.txt") {
        Route::TextPage(f) => assert_eq!(f, "a/b/notes.txt"),
        _ => panic!("expected the text-page route"),
    }
}

#[test]
fn other_paths_route_to_raw_file() {
    match route("/image.bin") {
        Route::RawFile(f) => assert_eq!(f, "image.bin"),
        _ => panic!("expected the raw-file route"),
    }
}

#[test]
fn bare_txt_path_is_the_dot_file() {
    match route("/.txt") {
        Route::TextPage(f) => assert_eq!(f, ".txt"),
        _ => panic!("expected the text-page route"),
    }
}

#[test]
fn script_content_is_escaped() {
    let page = build_text_page("notes.txt", "<script>alert(1)</script>");
    assert!(page.contains("&lt;script&gt;alert(1)&lt;&#x2F;script&gt;"));
    assert!(!page.contains("<script>"));
    assert!(!page.contains("</script>"));
}

#[test]
fn quotes_and_ampersands_are_escaped() {
    let page = build_text_page("q.txt", "a\"b'c&d<e>f");
    assert!(page.contains("<pre>a&quot;b&#x27;c&amp;d&lt;e&gt;f</pre>"));
}

#[test]
fn filename_is_escaped_in_title_and_heading() {
    let page = build_text_page("<evil>.txt", "x");
    assert!(page.contains("<title>&lt;evil&gt;.txt</title>"));
    assert!(page.contains("<h1>&lt;evil&gt;.txt</h1>"));
    assert!(!page.contains("<evil>"));
}

#[test]
fn page_has_exact_expected_form() {
    let page = build_text_page("n", "x");
    let expected = "<!DOCTYPE html>\n<html lang=\"en\">\n<head>\n<meta charset=\"UTF-8\">\n<meta name=\"viewport\" content=\"width=device-width, initial-scale=1.0\">\n<title>n</title>\n<style>\nbody { font-family: Arial, sans-serif; line-height: 1.6; padding: 20px; }\npre { background-color: #f4f4f4; padding: 15px; border-radius: 5px; white-space: pre-wrap; word-wrap: break-word; }\n</style>\n</head>\n<body>\n<h1>n</h1>\n<pre>x</pre>\n</body>\n</html>\n";
    assert_eq!(page, expected);
}

#[test]
fn raw_reply_keeps_bytes_exactly() {
    let bytes: Vec<u8> = vec![0, 159, 255, 10, 32, 7];
    match reply_for_raw(Ok(bytes.clone())) {
        Reply::Raw(served) => assert_eq!(served, bytes),
        _ => panic!("expected raw bytes"),
    }
}

#[test]
fn base_name_is_what_follows_the_last_separator() {
    assert_eq!(base_name("notes.txt"), "notes.txt");
    assert_eq!(base_name("a/b/notes.txt"), "notes.txt");
    assert_eq!(base_name("a/"), "");
    assert_eq!(base_name(""), "");
}

#[test]
fn nested_text_file_is_titled_with_its_base_name() {
    match reply_for_text("a/b/notes.txt", Ok(String::from("x"))) {
        Reply::Page(p) => {
            assert!(p.contains("<title>notes.txt</title>"));
            assert!(p.contains("<h1>notes.txt</h1>"));
        },
        _ => panic!("expected an HTML page"),
    }
}

#[test]
fn text_reply_wraps_content_in_page() {
    match reply_for_text("notes.txt", Ok(String::from("hello"))) {
        Reply::Page(p) => {
            assert!(p.contains("<pre>hello</pre>"));
            assert!(p.contains("<title>notes.txt</title>"));
        },
        _ => panic!("expected an HTML page"),
    }
}

#[test]
fn absent_file_gives_not_found() {
    assert!(matches!(
        reply_for_text("missing.txt", Err(FileReadError::NotFound)),
        Reply::Failure(404)
    ));
    assert!(matches!(reply_for_raw(Err(FileReadError::NotFound)), Reply::Failure(404)));
}

#[test]
fn read_and_encoding_failures_give_server_error() {
    assert!(matches!(reply_for_raw(Err(FileReadError::Io)), Reply::Failure(500)));
    assert!(matches!(
        reply_for_text("notes.txt", Err(FileReadError::InvalidEncoding)),
        Reply::Failure(500)
    ));
}

#[test]
fn failed_request_does_not_stop_later_ones() {
    assert!(matches!(
        reply_for_text("missing.txt", Err(FileReadError::NotFound)),
        Reply::Failure(404)
    ));
    let bytes: Vec<u8> = vec![1, 2, 3];
    match reply_for_raw(Ok(bytes.clone())) {
        Reply::Raw(served) => assert_eq!(served, bytes),
        _ => panic!("expected raw bytes"),
    }
}
