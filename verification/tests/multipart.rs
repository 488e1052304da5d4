use slack_morphism::multipart_form::{
    create_multipart_file_content, generate_multipart_boundary, multipart_boundary_at, FileMultipartData,
};

#[test]
fn fields_without_a_value_are_left_out() {
    let fields: Vec<(&str, Option<&str>)> = vec![("channels", Some("C1")), ("title", None)];
    let body = create_multipart_file_content(&fields, "B", None).unwrap();
    assert_eq!(
        &body[..],
        b"\r\n\r\n--B\r\nContent-Disposition: form-data; name=\"channels\"\r\nContent-Length: 2\r\n\r\nC1\r\n--B"
    );
}

#[test]
fn the_file_comes_first() {
    let data = b"hello";
    let file = FileMultipartData { name: "a.txt".to_string(), content_type: "text/plain".to_string(), data };
    let fields: Vec<(&str, Option<&str>)> = vec![("title", Some("é"))];
    let body = create_multipart_file_content(&fields, "B", Some(file)).unwrap();
    let expected: Vec<u8> = [
        &b"\r\n"[..],
        b"\r\n--B\r\nContent-Disposition: form-data; name=\"file\"; filename=\"a.txt\"\r\n",
        b"Content-Type: text/plain\r\nContent-Length: 5\r\n\r\nhello",
        b"\r\n--B\r\nContent-Disposition: form-data; name=\"title\"\r\nContent-Length: 2\r\n\r\n",
        "é".as_bytes(),
        b"\r\n--B",
    ]
    .concat();
    assert_eq!(&body[..], &expected[..]);
}

#[test]
fn an_empty_form_is_two_line_breaks_and_the_boundary() {
    let body = create_multipart_file_content(&[], "X", None).unwrap();
    assert_eq!(&body[..], b"\r\n\r\n--X");
}

#[test]
fn boundaries() {
    assert_eq!(multipart_boundary_at(1577839362), "----WebKitFormBoundarySlackMorphismRust1577839362");
    assert_eq!(multipart_boundary_at(-3), "----WebKitFormBoundarySlackMorphismRust-3");
    let generated = generate_multipart_boundary();
    let suffix = generated.strip_prefix("----WebKitFormBoundarySlackMorphismRust").unwrap();
    assert!(suffix.parse::<i64>().is_ok());
}
