use aimux_providers::prodia::{header_fields_of, lines_of, parse_multipart, parse_part, quoted_name_of};

#[test]
fn multipart_body_splits_into_parts() {
    let body = b"--XYZ\r\nContent-Disposition: form-data; name=\"job\"\r\nContent-Type: application/json\r\n\r\n{\"id\":1}\r\n--XYZ\r\nContent-Disposition: form-data; name=\"output\"; filename=\"a.png\"\r\ncontent-type:  image/png \r\n\r\n\x89PNG\r\n--XYZ--\r\n";
    let parts = parse_multipart(body, "XYZ");
    // The closing delimiter `--XYZ--` ends the body; it is no part.
    assert_eq!(parts.len(), 2);
    assert_eq!(parts[0].0, "job");
    assert_eq!(parts[0].1, "application/json");
    assert_eq!(parts[0].2, b"{\"id\":1}".to_vec());
    assert_eq!(parts[1].0, "output");
    assert_eq!(parts[1].1, "image/png");
    assert_eq!(parts[1].2, b"\x89PNG".to_vec());
}

#[test]
fn multipart_without_delimiter_has_no_parts() {
    assert!(parse_multipart(b"no parts here", "XYZ").is_empty());
    assert!(parse_multipart(b"", "XYZ").is_empty());
    // A delimiter at the very end starts nothing.
    assert!(parse_multipart(b"--XYZ", "XYZ").is_empty());
}

#[test]
fn part_without_blank_line_is_all_header() {
    let (name, ct, content) = parse_part(b"Content-Disposition: form-data; name=\"x\"");
    assert_eq!(name, "x");
    assert_eq!(ct, "");
    assert!(content.is_empty());
}

#[test]
fn invalid_utf8_header_is_read_lossily() {
    let (name, _, content) = parse_part(b"Content-Disposition: form-data; name=\"a\xffb\"\r\n\r\ndata");
    assert_eq!(name, "a\u{fffd}b");
    assert_eq!(content, b"data".to_vec());
}

#[test]
fn header_lines_follow_str_lines() {
    assert_eq!(lines_of("a\r\nb\nc"), vec!["a", "b", "c"]);
    assert_eq!(lines_of("a\n"), vec!["a"]);
    assert_eq!(lines_of("\n\nx"), vec!["", "", "x"]);
    assert!(lines_of("").is_empty());
}

#[test]
fn quoted_names() {
    assert_eq!(quoted_name_of("form-data; name=\"file\"; filename=\"f\"").as_deref(), Some("file"));
    assert_eq!(quoted_name_of("form-data; name=\"open"), None);
    assert_eq!(quoted_name_of("form-data"), None);
    let lines = vec![
        "CONTENT-DISPOSITION: form-data; name=\"first\"".to_string(),
        "Content-Type: text/plain".to_string(),
        "content-disposition: attachment".to_string(),
    ];
    let (name, ct) = header_fields_of(&lines);
    assert_eq!(name, "first");
    assert_eq!(ct, "text/plain");
}
