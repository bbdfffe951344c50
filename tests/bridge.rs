use cargo_cacher::bridge::{
    cgi_environment, forwarded_content_type, parse_backend_output, parse_header_block, path_info,
    status_of, subtype, GitRequest, Reason,
};

#[test]
fn status_header_with_not_found_reason() {
    let out = b"Status: 404 Not Found\r\nContent-Type: text/plain\r\n\r\nmissing".to_vec();
    let reply = parse_backend_output(&out);
    assert_eq!(reply.status, 404);
    assert_eq!(reply.reason, Reason::NotFound);
    assert_eq!(reply.content_subtype, b"plain".to_vec());
    assert_eq!(reply.body, b"missing".to_vec());
}

#[test]
fn absent_status_defaults_to_200() {
    let out = b"Content-Type: application/x-git-upload-pack-advertisement\r\n\r\n001e# service".to_vec();
    let reply = parse_backend_output(&out);
    assert_eq!(reply.status, 200);
    assert_eq!(reply.reason, Reason::Okay);
    assert_eq!(reply.content_subtype, b"x-git-upload-pack-advertisement".to_vec());
    assert_eq!(reply.content_type(), b"application/x-git-upload-pack-advertisement".to_vec());
    assert_eq!(reply.body, b"001e# service".to_vec());
}

#[test]
fn other_reason_phrases_are_ok() {
    let reply = parse_backend_output(&b"Status: 500 Internal Server Error\n\n".to_vec());
    assert_eq!(reply.status, 500);
    assert_eq!(reply.reason, Reason::Okay);
    assert!(reply.body.is_empty());
}

#[test]
fn unreadable_status_code_defaults_to_200() {
    assert_eq!(status_of(Some(&b"abc Not Found".to_vec())), (200, Reason::NotFound));
    assert_eq!(status_of(Some(&b"70000 Big".to_vec())), (200, Reason::Okay));
    assert_eq!(status_of(Some(&b"".to_vec())), (200, Reason::Okay));
    assert_eq!(status_of(Some(&b"304".to_vec())), (304, Reason::Okay));
    assert_eq!(status_of(Some(&b"404 Not Found!".to_vec())), (404, Reason::Okay));
    assert_eq!(status_of(None), (200, Reason::Okay));
}

#[test]
fn status_code_is_the_leading_integer() {
    assert_eq!(status_of(Some(&b"404abc".to_vec())).0, 404);
    assert_eq!(status_of(Some(&b"302\tFound".to_vec())).0, 302);
    assert_eq!(status_of(Some(&b" 404 Not Found".to_vec())).0, 200);
    assert_eq!(status_of(Some(&b"65535".to_vec())).0, 65535);
    assert_eq!(status_of(Some(&b"65536 Too Big".to_vec())).0, 200);
    assert_eq!(status_of(Some(&b"00201 Created".to_vec())).0, 201);
}

#[test]
fn first_status_field_wins() {
    let out = b"Status: 403 Forbidden\nStatus: 404 Not Found\n\n".to_vec();
    let reply = parse_backend_output(&out);
    assert_eq!(reply.status, 403);
    assert_eq!(reply.reason, Reason::Okay);
}

#[test]
fn body_is_kept_byte_for_byte() {
    let mut out = b"Content-Type: application/x-git-upload-pack-result\r\n\r\n".to_vec();
    let body: Vec<u8> = vec![0, 255, 10, 13, 10, 58, 32, 7];
    out.extend_from_slice(&body);
    let reply = parse_backend_output(&out);
    assert_eq!(reply.body, body);
}

#[test]
fn output_without_blank_line_has_empty_body() {
    let reply = parse_backend_output(&b"Status: 201 Created\nContent-Type: a/b".to_vec());
    assert_eq!(reply.status, 201);
    assert_eq!(reply.content_subtype, b"b".to_vec());
    assert!(reply.body.is_empty());
}

#[test]
fn empty_output() {
    let reply = parse_backend_output(&Vec::new());
    assert_eq!(reply.status, 200);
    assert_eq!(reply.reason, Reason::Okay);
    assert!(reply.content_subtype.is_empty());
    assert_eq!(reply.content_type(), b"application/".to_vec());
    assert!(reply.body.is_empty());
}

#[test]
fn header_block_fields_in_order() {
    let out = b"Expires: never\r\nno colon here\r\nPragma:no-cache\r\nExpires: soon\r\n\r\nrest".to_vec();
    let (fields, start) = parse_header_block(&out);
    let pairs: Vec<(Vec<u8>, Vec<u8>)> =
        fields.into_iter().map(|f| (f.name, f.value)).collect();
    assert_eq!(
        pairs,
        vec![
            (b"Expires".to_vec(), b"never".to_vec()),
            (b"Pragma".to_vec(), b"no-cache".to_vec()),
            (b"Expires".to_vec(), b"soon".to_vec()),
        ]
    );
    assert_eq!(&out[start..], b"rest");
}

#[test]
fn subtype_after_last_slash() {
    assert_eq!(subtype(Some(&b"text/html".to_vec())), b"html".to_vec());
    assert_eq!(subtype(Some(&b"a/b/c".to_vec())), b"c".to_vec());
    assert_eq!(subtype(Some(&b"plain".to_vec())), b"plain".to_vec());
    assert_eq!(subtype(Some(&b"text/".to_vec())), Vec::<u8>::new());
    assert_eq!(subtype(None), Vec::<u8>::new());
}

#[test]
fn path_info_begins_with_slash() {
    assert_eq!(path_info("index/info/refs"), "/index/info/refs");
    assert_eq!(path_info("/index/info/refs"), "/index/info/refs");
    assert_eq!(path_info(""), "/");
}

#[test]
fn cgi_environment_for_a_request() {
    let req = GitRequest {
        method: "Post".to_string(),
        path: "index/git-upload-pack".to_string(),
        query: "service=git-upload-pack".to_string(),
        content_type: "application/x-git-upload-pack-request".to_string(),
        remote_addr: "127.0.0.1:5000".to_string(),
    };
    let env = cgi_environment(&req, "/srv/mirror/index");
    let expected: Vec<(String, String)> = vec![
        ("REQUEST_METHOD", "POST"),
        ("GIT_PROJECT_ROOT", "/srv/mirror/index"),
        ("PATH_INFO", "/index/git-upload-pack"),
        ("REMOTE_USER", ""),
        ("REMOTE_ADDR", "127.0.0.1:5000"),
        ("QUERY_STRING", "service=git-upload-pack"),
        ("CONTENT_TYPE", "application/x-git-upload-pack-request"),
    ]
    .into_iter()
    .map(|(k, v)| (k.to_string(), v.to_string()))
    .collect();
    assert_eq!(env, expected);
}

#[test]
fn method_is_upper_cased() {
    let req = GitRequest {
        method: "get-ß".to_string(),
        path: "/".to_string(),
        query: String::new(),
        content_type: String::new(),
        remote_addr: String::new(),
    };
    assert_eq!(cgi_environment(&req, "/m")[0].1, "GET-ß");
}

#[test]
fn only_application_types_are_forwarded() {
    assert_eq!(
        forwarded_content_type("application", "x-git-receive-pack-request"),
        "application/x-git-receive-pack-request"
    );
    assert_eq!(forwarded_content_type("text", "plain"), "");
    assert_eq!(forwarded_content_type("Application", "json"), "");
}
