use statichost::response::{
    bad_request_response, content_type_for, file_response_head, not_found_response, status_line,
};

#[test]
fn status_line_ok() {
    assert_eq!(status_line(200), b"HTTP/1.1 200 OK\r\n".to_vec());
}

#[test]
fn status_line_not_found() {
    assert_eq!(status_line(404), b"HTTP/1.1 404 Not Found\r\n".to_vec());
}

#[test]
fn status_line_generic_uses_registered_reason() {
    assert_eq!(status_line(400), b"HTTP/1.1 400 Bad Request\r\n".to_vec());
    assert_eq!(status_line(418), b"HTTP/1.1 418 I'm a teapot\r\n".to_vec());
}

#[test]
fn status_line_unregistered_reason_is_empty() {
    assert_eq!(status_line(599), b"HTTP/1.1 599 \r\n".to_vec());
}

#[test]
fn content_type_known_extensions() {
    let cases: &[(&[u8], &[u8])] = &[
        (b"/a/page.html", b"text/html"),
        (b"/a/app.js", b"application/javascript"),
        (b"/doc.pdf", b"application/pdf"),
        (b"/data.json", b"application/json"),
        (b"/bundle.zip", b"application/zip"),
        (b"/pic.jpg", b"image/jpeg"),
        (b"/pic.jpeg", b"image/jpeg"),
        (b"/pic.png", b"image/png"),
        (b"/anim.gif", b"image/gif"),
        (b"/table.csv", b"text/csv"),
        (b"/style.css", b"text/css"),
        (b"/index.php", b"text/php"),
    ];
    for (path, expected) in cases {
        assert_eq!(
            content_type_for(&path.to_vec()),
            Some(expected.to_vec()),
            "path {:?}",
            String::from_utf8_lossy(path)
        );
    }
}

#[test]
fn content_type_unknown_or_missing_extension() {
    assert_eq!(content_type_for(&b"/a/file.unknown".to_vec()), None);
    assert_eq!(content_type_for(&b"/a/noext".to_vec()), None);
    assert_eq!(content_type_for(&b"/a/.hidden".to_vec()), None);
    assert_eq!(content_type_for(&b"/ends.with.dir/name".to_vec()), None);
}

#[test]
fn file_head_with_content_type() {
    let head = file_response_head(&b"/srv/style.css".to_vec(), 42);
    assert_eq!(
        head,
        b"HTTP/1.1 200 OK\r\ncontent-type: text/css\r\ncontent-length: 42\r\n\r\n".to_vec()
    );
}

#[test]
fn file_head_without_content_type() {
    let head = file_response_head(&b"/srv/archive.tar.xz".to_vec(), 5);
    assert_eq!(head, b"HTTP/1.1 200 OK\r\ncontent-length: 5\r\n\r\n".to_vec());
}

#[test]
fn file_head_largest_length() {
    let head = file_response_head(&b"/big".to_vec(), u64::MAX);
    assert_eq!(
        head,
        b"HTTP/1.1 200 OK\r\ncontent-length: 18446744073709551615\r\n\r\n".to_vec()
    );
}

#[test]
fn not_found_body_and_length_match_page() {
    let page = b"<h1>gone</h1>".to_vec();
    let response = not_found_response(&page);
    assert_eq!(
        response,
        b"HTTP/1.1 404 Not Found\r\ncontent-type: text/html\r\ncontent-length: 13\r\n\r\n<h1>gone</h1>"
            .to_vec()
    );
    assert!(response.ends_with(&page));
}

#[test]
fn not_found_empty_page() {
    let response = not_found_response(&Vec::new());
    assert_eq!(
        response,
        b"HTTP/1.1 404 Not Found\r\ncontent-type: text/html\r\ncontent-length: 0\r\n\r\n".to_vec()
    );
}

#[test]
fn bad_request_has_zero_length_body() {
    let response = bad_request_response();
    assert_eq!(
        response,
        b"HTTP/1.1 400 Bad Request\r\ncontent-length: 0\r\n\r\n".to_vec()
    );
    assert!(response.ends_with(b"\r\n\r\n"));
}
