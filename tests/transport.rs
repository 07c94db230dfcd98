use git2_ureq::action::{Action, Method};
use git2_ureq::error::ExchangeError;
use git2_ureq::exchange::{check_response, prepare_request, request_for, USER_AGENT};
use git2_ureq::session::UreqTransport;
use git2_ureq::stream::{Phase, UreqSubtransport};

fn header<'a>(headers: &'a [(String, String)], name: &str) -> Option<&'a str> {
    headers.iter().find(|h| h.0 == name).map(|h| h.1.as_str())
}

fn drain(stream: &mut UreqSubtransport, chunk: usize) -> Vec<u8> {
    let mut out = Vec::new();
    loop {
        let part = stream.read(chunk);
        if part.is_empty() {
            return out;
        }
        out.extend_from_slice(&part);
    }
}

#[test]
fn action_table() {
    let table = [
        (Action::AdvertiseUploadPack, "upload-pack", "/info/refs?service=git-upload-pack", Method::Get, "GET"),
        (Action::ExecuteUploadPack, "upload-pack", "/git-upload-pack", Method::Post, "POST"),
        (Action::AdvertiseReceivePack, "receive-pack", "/info/refs?service=git-receive-pack", Method::Get, "GET"),
        (Action::ExecuteReceivePack, "receive-pack", "/git-receive-pack", Method::Post, "POST"),
    ];
    for (action, service, path, method, text) in table {
        assert_eq!(action.mapping(), (service, path, method));
        assert_eq!(action.service(), service);
        assert_eq!(action.path(), path);
        assert_eq!(action.method(), method);
        assert_eq!(action.method().as_str(), text);
    }
}

#[test]
fn first_url_fixes_base() {
    let mut session = UreqTransport::new();
    assert_eq!(session.base_url(), "");
    let _first = session.action("https://first.test/a.git", Action::AdvertiseUploadPack);
    let mut second = session.action("https://second.test/b.git", Action::ExecuteUploadPack);
    assert_eq!(session.base_url(), "https://first.test/a.git");
    second.write(b"0000").unwrap();
    let req = second.execute().unwrap();
    assert_eq!(req.url, "https://first.test/a.git/git-upload-pack");
    assert_eq!(header(&req.headers, "Host"), Some("first.test"));
    assert!(session.close().is_ok());
}

#[test]
fn write_then_write_is_refused() {
    let mut session = UreqTransport::new();
    let mut stream = session.action("https://example.test/repo.git", Action::ExecuteUploadPack);
    assert_eq!(stream.write(b"0009done\n"), Ok(9));
    assert_eq!(stream.write(b"more"), Err(ExchangeError::AlreadyExecuted));
    let req = stream.execute().unwrap();
    assert_eq!(req.body, b"0009done\n".to_vec());
}

#[test]
fn second_execute_is_refused() {
    let mut session = UreqTransport::new();
    let mut stream = session.action("https://example.test/repo.git", Action::AdvertiseUploadPack);
    assert_eq!(stream.phase(), Phase::Idle);
    assert!(stream.execute().is_ok());
    assert_eq!(stream.phase(), Phase::Sent);
    assert!(matches!(stream.execute(), Err(ExchangeError::AlreadyExecuted)));
    stream
        .complete(200, Some("application/x-git-upload-pack-advertisement"), b"0000".to_vec())
        .unwrap();
    assert_eq!(drain(&mut stream, 3), b"0000".to_vec());
    assert!(stream.read(10).is_empty());
    assert!(matches!(stream.execute(), Err(ExchangeError::AlreadyExecuted)));
    assert_eq!(stream.write(b"x"), Err(ExchangeError::AlreadyExecuted));
    assert_eq!(stream.phase(), Phase::Ready);
}

#[test]
fn status_404_fails_the_stream() {
    let mut session = UreqTransport::new();
    let mut stream = session.action("https://example.test/repo.git", Action::AdvertiseUploadPack);
    stream.execute().unwrap();
    let r = stream.complete(404, Some("text/html"), b"not found".to_vec());
    assert_eq!(r, Err(ExchangeError::UnexpectedStatus(404)));
    assert_eq!(stream.phase(), Phase::Failed);
    assert!(matches!(stream.execute(), Err(ExchangeError::AlreadyExecuted)));
}

#[test]
fn missing_content_type() {
    assert_eq!(
        check_response(Action::ExecuteUploadPack, 200, None),
        Err(ExchangeError::MissingContentType)
    );
    let mut stream = UreqSubtransport::new(Action::AdvertiseReceivePack, "https://h.test/r".to_string());
    stream.execute().unwrap();
    assert_eq!(stream.complete(200, None, Vec::new()), Err(ExchangeError::MissingContentType));
    assert_eq!(stream.phase(), Phase::Failed);
}

#[test]
fn content_type_mismatch() {
    assert_eq!(
        check_response(Action::ExecuteUploadPack, 200, Some("text/plain")),
        Err(ExchangeError::ContentTypeMismatch {
            expected: "application/x-git-upload-pack-result".to_string(),
            actual: "text/plain".to_string(),
        })
    );
    // an advertisement's type is not accepted for a pack exchange, nor the other way round
    assert!(check_response(Action::ExecuteUploadPack, 200, Some("application/x-git-upload-pack-advertisement")).is_err());
    assert!(check_response(Action::AdvertiseUploadPack, 200, Some("application/x-git-upload-pack-result")).is_err());
}

#[test]
fn status_is_checked_before_content_type() {
    assert_eq!(check_response(Action::ExecuteReceivePack, 500, None), Err(ExchangeError::UnexpectedStatus(500)));
    assert_eq!(check_response(Action::ExecuteReceivePack, 201, Some("application/x-git-receive-pack-result")), Err(ExchangeError::UnexpectedStatus(201)));
}

#[test]
fn accepted_content_types() {
    assert_eq!(check_response(Action::AdvertiseUploadPack, 200, Some("application/x-git-upload-pack-advertisement")), Ok(()));
    assert_eq!(check_response(Action::ExecuteUploadPack, 200, Some("application/x-git-upload-pack-result")), Ok(()));
    assert_eq!(check_response(Action::AdvertiseReceivePack, 200, Some("application/x-git-receive-pack-advertisement")), Ok(()));
    assert_eq!(check_response(Action::ExecuteReceivePack, 200, Some("application/x-git-receive-pack-result")), Ok(()));
}

#[test]
fn advertisement_end_to_end() {
    let mut session = UreqTransport::new();
    let mut stream = session.action("https://example.test/repo.git", Action::AdvertiseUploadPack);
    let req = stream.execute().unwrap();
    assert_eq!(req.method, Method::Get);
    assert_eq!(req.url, "https://example.test/repo.git/info/refs?service=git-upload-pack");
    assert_eq!(header(&req.headers, "Accept"), Some("*/*"));
    assert_eq!(header(&req.headers, "Content-Type"), None);
    assert_eq!(header(&req.headers, "Host"), Some("example.test"));
    assert_eq!(header(&req.headers, "User-Agent"), Some(USER_AGENT));
    assert_eq!(header(&req.headers, "Expect"), Some(""));
    assert!(req.body.is_empty());
    let body = b"001e# service=git-upload-pack\n0000".to_vec();
    stream
        .complete(200, Some("application/x-git-upload-pack-advertisement"), body.clone())
        .unwrap();
    assert_eq!(drain(&mut stream, 7), body);
}

#[test]
fn receive_pack_end_to_end() {
    let payload: Vec<u8> = (0u8..37).map(|i| i.wrapping_mul(53) ^ 0xa5).collect();
    let mut session = UreqTransport::new();
    let mut stream = session.action("https://example.test/repo.git", Action::ExecuteReceivePack);
    assert_eq!(stream.write(&payload), Ok(37));
    let req = stream.execute().unwrap();
    assert_eq!(req.method, Method::Post);
    assert_eq!(req.method.as_str(), "POST");
    assert_eq!(req.url, "https://example.test/repo.git/git-receive-pack");
    assert_eq!(header(&req.headers, "Content-Type"), Some("application/x-git-receive-pack-request"));
    assert_eq!(header(&req.headers, "Accept"), Some("application/x-git-receive-pack-result"));
    assert_eq!(req.body, payload);
    stream
        .complete(200, Some("application/x-git-receive-pack-result"), b"0008NAK\n".to_vec())
        .unwrap();
    assert_eq!(stream.read(100), b"0008NAK\n".to_vec());
    assert!(stream.read(100).is_empty());
}

#[test]
fn headers_in_order() {
    let req = request_for(Action::ExecuteUploadPack, "https://h.test/r/git-upload-pack".to_string(), Some("h.test"), vec![1, 2]).unwrap();
    let names: Vec<&str> = req.headers.iter().map(|h| h.0.as_str()).collect();
    assert_eq!(names, vec!["User-Agent", "Host", "Expect", "Accept", "Content-Type"]);
    assert_eq!(USER_AGENT, "git/1.0 (git2-ureq 0.1.0)");
}

#[test]
fn missing_host_from_request_for() {
    assert!(matches!(
        request_for(Action::ExecuteUploadPack, "x".to_string(), None, Vec::new()),
        Err(ExchangeError::MissingHost)
    ));
}

#[test]
fn invalid_url() {
    let mut session = UreqTransport::new();
    let mut stream = session.action("not a url", Action::AdvertiseUploadPack);
    assert!(matches!(stream.execute(), Err(ExchangeError::InvalidUrl)));
    assert_eq!(stream.phase(), Phase::Failed);
    assert!(matches!(stream.execute(), Err(ExchangeError::AlreadyExecuted)));
    assert!(matches!(
        prepare_request(Action::ExecuteUploadPack, "http://[::1".to_string(), Vec::new()),
        Err(ExchangeError::InvalidUrl)
    ));
}

#[test]
fn url_without_host() {
    let mut session = UreqTransport::new();
    let mut stream = session.action("mailto:someone", Action::ExecuteUploadPack);
    assert!(matches!(stream.execute(), Err(ExchangeError::MissingHost)));
    assert_eq!(stream.phase(), Phase::Failed);
}

#[test]
fn transport_failure() {
    let mut stream = UreqSubtransport::new(Action::ExecuteUploadPack, "https://h.test/r".to_string());
    assert_eq!(stream.err("boom"), ExchangeError::Transport("boom".to_string()));
    stream.execute().unwrap();
    assert_eq!(stream.fail("connection refused"), ExchangeError::Transport("connection refused".to_string()));
    assert_eq!(stream.phase(), Phase::Failed);
    assert!(stream.flush().is_ok());
}

#[test]
fn chunked_reads() {
    let mut stream = UreqSubtransport::new(Action::ExecuteUploadPack, "https://h.test/r".to_string());
    stream.execute().unwrap();
    stream.complete(200, Some("application/x-git-upload-pack-result"), b"abcdefg".to_vec()).unwrap();
    assert_eq!(stream.read(3), b"abc".to_vec());
    assert_eq!(stream.read(0), Vec::<u8>::new());
    assert_eq!(stream.read(3), b"def".to_vec());
    assert_eq!(stream.read(3), b"g".to_vec());
    assert_eq!(stream.read(3), Vec::<u8>::new());
}

#[test]
fn empty_url_does_not_fix_base() {
    let mut session = UreqTransport::new();
    let _a = session.action("", Action::AdvertiseUploadPack);
    assert_eq!(session.base_url(), "");
    let _b = session.action("https://later.test/r", Action::AdvertiseUploadPack);
    assert_eq!(session.base_url(), "https://later.test/r");
}
