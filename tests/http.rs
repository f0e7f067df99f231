use http_client::{
    append_body, body_options, build_header_list, configure, finish, is_header_text, record_header,
    BodyReader, Client, Error, ErrorKind, Handle, HandleOption, Method, Request, Response,
    USER_AGENT,
};

fn response(status: u32) -> Response {
    Response::new(status, vec![], Some(vec![]))
}

#[test]
fn failed_and_ok_at_range_edges() {
    let cases: [(u32, bool); 5] = [(200, false), (399, false), (400, true), (600, true), (601, false)];
    for (status, failed) in cases.iter() {
        let r = response(*status);
        assert_eq!(r.status(), *status);
        assert_eq!(r.failed(), *failed);
        assert_eq!(r.ok(), !*failed);
    }
}

#[test]
fn response_keeps_headers_and_body() {
    let r = Response::new(
        404,
        vec!["HTTP/1.1 404 Not Found\r\n".to_string(), "\r\n".to_string()],
        Some(b"gone".to_vec()),
    );
    assert_eq!(r.headers().len(), 2);
    assert_eq!(r.headers()[0], "HTTP/1.1 404 Not Found\r\n");
    assert_eq!(r.body(), &Some(b"gone".to_vec()));
    assert!(r.failed());
}

#[test]
fn request_url_is_plain_concatenation() {
    let client = Client::new("http://api.test", "tok");
    assert_eq!(client.request_url("/v1/x"), "http://api.test/v1/x");
    assert_eq!(client.request_url("v1"), "http://api.testv1");
    assert_eq!(client.base_url(), "http://api.test");
}

#[test]
fn request_points_handle_at_joined_url() {
    let mut client = Client::new("http://api.test", "tok");
    let req = client.request("/v1/x", Method::Get).unwrap();
    assert_eq!(req.url(), "http://api.test/v1/x");
    assert_eq!(req.headers(), &vec![USER_AGENT.to_string()]);
}

#[test]
fn get_without_body_takes_no_upload_path() {
    assert_eq!(body_options(&None), vec![]);
    assert_eq!(Method::Get.setup_options(), vec![HandleOption::HttpGet(true)]);
}

#[test]
fn body_sets_upload_and_exact_size() {
    assert_eq!(
        body_options(&Some(vec![1, 2, 3, 4, 5, 6, 7])),
        vec![HandleOption::Upload(true), HandleOption::InFileSize(7)]
    );
    assert_eq!(body_options(&Some(vec![]))[1], HandleOption::InFileSize(0));
}

#[test]
fn chunked_reads_deliver_whole_body() {
    let body: Vec<u8> = (0u8..10).collect();
    let mut reader = BodyReader::new(body.clone());
    let mut out = Vec::new();
    let mut buf = [0xffu8; 3];
    let mut calls = 0;
    loop {
        let n = reader.read_into(&mut buf);
        calls += 1;
        if n == 0 {
            break;
        }
        out.extend_from_slice(&buf[..n]);
    }
    assert_eq!(out, body);
    assert_eq!(calls, 5);
    assert_eq!(reader.remaining(), 0);
}

#[test]
fn short_read_leaves_rest_of_buffer() {
    let mut reader = BodyReader::new(vec![9, 8]);
    let mut buf = [0u8; 4];
    assert_eq!(reader.read_into(&mut buf), 2);
    assert_eq!(buf, [9, 8, 0, 0]);
    assert_eq!(reader.read_into(&mut buf), 0);
    let mut empty = BodyReader::new(vec![]);
    assert_eq!(empty.read_into(&mut buf), 0);
}

#[test]
fn headers_keep_order_after_user_agent() {
    let mut handle = Handle::new();
    let req = Request::new(&mut handle, Method::Post, "http://api.test/items").unwrap();
    let req = req.with_header("Authorization", "Bearer abc").unwrap();
    let req = req.with_header("Accept", "application/json").unwrap();
    assert_eq!(
        req.headers(),
        &vec![
            "User-Agent: anyshortcut-cli/0.0.1".to_string(),
            "Authorization: Bearer abc".to_string(),
            "Accept: application/json".to_string(),
        ]
    );
}

#[test]
fn head_selects_get_head_and_no_body() {
    assert_eq!(
        Method::Head.setup_options(),
        vec![
            HandleOption::HttpGet(true),
            HandleOption::CustomRequest(Method::Head),
            HandleOption::NoBody(true),
        ]
    );
    let mut handle = Handle::new();
    assert!(configure(&mut handle, Method::Head, "http://api.test/").is_ok());
}

#[test]
fn second_request_has_fresh_url_and_headers() {
    let mut client = Client::new("http://api.test", "tok");
    {
        let first = client.request("/a", Method::Delete).unwrap();
        let first = first.with_header("X-One", "1").unwrap();
        assert_eq!(first.headers().len(), 2);
    }
    let second = client.request("/b", Method::Get).unwrap();
    assert_eq!(second.headers(), &vec![USER_AGENT.to_string()]);
    assert_eq!(second.url(), "http://api.test/b");
}

#[test]
fn malformed_header_is_rejected() {
    let mut handle = Handle::new();
    let req = Request::new(&mut handle, Method::Get, "http://api.test/").unwrap();
    assert!(req.with_header("X-Bad", "a\nb").is_err());
    let mut handle = Handle::new();
    let req = Request::new(&mut handle, Method::Get, "http://api.test/").unwrap();
    assert!(req.with_header("X-Bad\r", "v").is_err());
    let mut handle = Handle::new();
    let req = Request::new(&mut handle, Method::Get, "http://api.test/").unwrap();
    assert!(req.with_header("X-Nul", "a\0b").is_err());
    assert!(is_header_text("plain value"));
    assert!(!is_header_text("a\nb"));
}

#[test]
fn body_attaches_and_keeps_headers() {
    let mut handle = Handle::new();
    let req = Request::new(&mut handle, Method::Put, "http://api.test/x").unwrap();
    let req = req.with_body(b"abc".to_vec());
    assert_eq!(req.headers(), &vec![USER_AGENT.to_string()]);
    assert_eq!(req.url(), "http://api.test/x");
}

#[test]
fn header_list_refuses_nul() {
    assert!(build_header_list(&vec!["A: b".to_string()]).is_ok());
    assert!(build_header_list(&vec!["A: b".to_string(), "C: \0".to_string()]).is_err());
}

#[test]
fn callbacks_collect_body_and_header_lines() {
    let mut body = vec![1u8];
    assert_eq!(append_body(&mut body, &[2, 3]), 2);
    assert_eq!(body, vec![1, 2, 3]);
    let mut lines = Vec::new();
    assert!(record_header(&mut lines, b"Content-Type: text/plain\r\n"));
    assert!(record_header(&mut lines, b"X: \xff\r\n"));
    assert_eq!(lines[0], "Content-Type: text/plain\r\n");
    assert_eq!(lines[1], "X: \u{fffd}\r\n");
}

#[test]
fn method_names() {
    assert_eq!(Method::Get.as_str(), "GET");
    assert_eq!(Method::Head.to_string(), "HEAD");
    assert_eq!(Method::Post.as_str(), "POST");
    assert_eq!(Method::Put.as_str(), "PUT");
    assert_eq!(Method::Delete.to_string(), "DELETE");
}

#[test]
fn error_message_and_kinds() {
    assert_eq!(Error::new().message(), "Http error");
    assert_ne!(ErrorKind::InvalidToken, ErrorKind::RequestFailed);
}

#[test]
fn get_on_unreachable_host_is_an_error() {
    let mut client = Client::new("http://127.0.0.1:1", "tok");
    assert!(client.get("/x").is_err());
}

#[test]
fn finish_on_unreachable_host_is_an_error() {
    let mut handle = Handle::new();
    configure(&mut handle, Method::Put, "http://127.0.0.1:1/x").unwrap();
    let r = finish(&mut handle, vec![USER_AGENT.to_string()], Some(b"abc".to_vec()));
    assert!(r.is_err());
}

#[test]
fn send_with_bad_header_line_fails_before_transfer() {
    let r = finish(&mut Handle::new(), vec!["A: \0".to_string()], None);
    assert!(r.is_err());
}
