//! One HTTP exchange: the request an action sends and the checks its response must pass.

use vstd::prelude::*;

use crate::action::{method_of, service_of, Action, Method};
use crate::error::ExchangeError;

verus! {

/// The `User-Agent` this transport announces.
pub const USER_AGENT: &'static str = "git/1.0 (git2-ureq 0.1.0)";

/// Whether `url::Url::parse` accepts a string.
pub uninterp spec fn url_accepts(s: Seq<char>) -> bool;

/// The host that `url::Url::host_str` gives for the URL parsed from a string.
pub uninterp spec fn url_host(s: Seq<char>) -> Option<Seq<char>>;

#[verifier::external_type_specification]
#[verifier::external_body]
pub struct ExParseError(url::ParseError);

/// Relies on `url::Url::parse`, which fails exactly on the strings it does not
/// accept, and on `url::Url::host_str` of the parsed URL.
#[verifier::external_body]
fn parse_host(s: &str) -> (r: Result<Option<String>, url::ParseError>)
    ensures
        r is Ok <==> url_accepts(s@),
        r matches Ok(Some(h)) ==> url_host(s@) == Some(h@),
        r matches Ok(None) ==> url_host(s@) is None,
{
    url::Url::parse(s).map(|u| u.host_str().map(|h| h.to_string()))
}

/// The media type `application/x-git-<service><kind>`.
pub open spec fn media_type(service: Seq<char>, kind: Seq<char>) -> Seq<char> {
    "application/x-git-"@ + service + kind
}

/// The `Content-Type` a successful response to an action must carry.
pub open spec fn expected_content_type(a: Action) -> Seq<char> {
    match method_of(a) {
        Method::Get => media_type(service_of(a), "-advertisement"@),
        Method::Post => media_type(service_of(a), "-result"@),
    }
}

/// The headers of a request for `service` to `host`: an empty payload accepts
/// anything, a non-empty one declares its type and the result type it accepts.
/// `Expect` is sent empty, which turns off the 100-continue handshake.
pub open spec fn request_headers(service: Seq<char>, host: Seq<char>, empty_payload: bool) -> Seq<
    (Seq<char>, Seq<char>),
> {
    let common = seq![
        ("User-Agent"@, USER_AGENT@),
        ("Host"@, host),
        ("Expect"@, ""@),
    ];
    if empty_payload {
        common.push(("Accept"@, "*/*"@))
    } else {
        common.push(("Accept"@, media_type(service, "-result"@))).push(
            ("Content-Type"@, media_type(service, "-request"@)),
        )
    }
}

/// The one HTTP request of an exchange.
#[derive(Debug)]
pub struct Request {
    pub method: Method,
    /// The absolute URL: the remote's base URL followed by the action's path.
    pub url: String,
    /// Header names and values, in the order they are set.
    pub headers: Vec<(String, String)>,
    /// The outgoing payload; empty for an advertisement.
    pub body: Vec<u8>,
}

impl Request {
    pub open spec fn headers_view(&self) -> Seq<(Seq<char>, Seq<char>)> {
        self.headers@.map_values(|h: (String, String)| (h.0@, h.1@))
    }
}

/// What preparing the request of `action` to `url` with `payload` gives: an
/// unparseable URL is invalid, one without a host is refused, and any other
/// gets the request that `request_for` builds for the host found.
pub open spec fn prepared_as(
    action: Action,
    url: Seq<char>,
    payload: Seq<u8>,
    r: Result<Request, ExchangeError>,
) -> bool {
    if !url_accepts(url) {
        r == Err::<Request, ExchangeError>(ExchangeError::InvalidUrl)
    } else if url_host(url) is None {
        r == Err::<Request, ExchangeError>(ExchangeError::MissingHost)
    } else {
        match r {
            Ok(req) => req.method == method_of(action) && req.url@ == url && req.headers_view()
                == request_headers(service_of(action), url_host(url).unwrap(), payload.len() == 0)
                && req.body@ == payload,
            Err(_) => false,
        }
    }
}

/// The view of an optional header value.
pub open spec fn text_of(o: Option<&str>) -> Option<Seq<char>> {
    match o {
        Some(s) => Some(s@),
        None => None,
    }
}

/// What checking a response to `action` gives: any status but 200 is
/// refused with that status, then a missing `Content-Type`, then one other
/// than the expected type.
pub open spec fn checked_as(
    action: Action,
    status: u16,
    content_type: Option<Seq<char>>,
    r: Result<(), ExchangeError>,
) -> bool {
    if status != 200 {
        r == Err::<(), ExchangeError>(ExchangeError::UnexpectedStatus(status))
    } else if content_type is None {
        r == Err::<(), ExchangeError>(ExchangeError::MissingContentType)
    } else if content_type.unwrap() == expected_content_type(action) {
        r is Ok
    } else {
        match r {
            Err(ExchangeError::ContentTypeMismatch { expected, actual }) => expected@
                == expected_content_type(action) && actual@ == content_type.unwrap(),
            _ => false,
        }
    }
}

fn media(service: &str, kind: &str) -> (r: String)
    ensures
        r@ == media_type(service@, kind@),
{
    String::from_str("application/x-git-").concat(service).concat(kind)
}

fn header(name: &str, value: &str) -> (r: (String, String))
    ensures
        r.0@ == name@,
        r.1@ == value@,
{
    (String::from_str(name), String::from_str(value))
}

/// Builds the request of `action` to `url`, given the host that parsing `url`
/// found, if any. Without a host there is no request.
pub fn request_for(action: Action, url: String, host: Option<&str>, payload: Vec<u8>) -> (r: Result<
    Request,
    ExchangeError,
>)
    ensures
        host is None <==> r == Err::<Request, ExchangeError>(ExchangeError::MissingHost),
        host matches Some(h) ==> (r matches Ok(req) && req.method == method_of(action) && req.url@
            == url@ && req.headers_view() == request_headers(
            service_of(action),
            h@,
            payload@.len() == 0,
        ) && req.body@ == payload@),
{
    let h = match host {
        Some(h) => h,
        None => return Err(ExchangeError::MissingHost),
    };
    let service = action.service();
    let mut headers: Vec<(String, String)> = Vec::new();
    headers.push(header("User-Agent", USER_AGENT));
    headers.push(header("Host", h));
    headers.push(header("Expect", ""));
    if payload.len() == 0 {
        headers.push(header("Accept", "*/*"));
    } else {
        headers.push((String::from_str("Accept"), media(service, "-result")));
        headers.push((String::from_str("Content-Type"), media(service, "-request")));
    }
    let req = Request { method: action.method(), url, headers, body: payload };
    assert(req.headers_view() =~= request_headers(service_of(action), h@, payload@.len() == 0));
    Ok(req)
}

/// Parses the request URL and builds the request of `action` to it.
pub fn prepare_request(action: Action, url: String, payload: Vec<u8>) -> (r: Result<
    Request,
    ExchangeError,
>)
    ensures
        prepared_as(action, url@, payload@, r),
{
    match parse_host(url.as_str()) {
        Err(_) => Err(ExchangeError::InvalidUrl),
        Ok(None) => Err(ExchangeError::MissingHost),
        Ok(Some(h)) => request_for(action, url, Some(h.as_str()), payload),
    }
}

/// Checks the status and `Content-Type` of the response to `action`.
pub fn check_response(action: Action, status: u16, content_type: Option<&str>) -> (r: Result<
    (),
    ExchangeError,
>)
    ensures
        checked_as(action, status, text_of(content_type), r),
{
    if status != 200 {
        return Err(ExchangeError::UnexpectedStatus(status));
    }
    let expected = match action.method() {
        Method::Get => media(action.service(), "-advertisement"),
        Method::Post => media(action.service(), "-result"),
    };
    match content_type {
        None => Err(ExchangeError::MissingContentType),
        Some(ct) => {
            let actual = String::from_str(ct);
            if actual == expected {
                Ok(())
            } else {
                Err(ExchangeError::ContentTypeMismatch { expected, actual })
            }
        },
    }
}

} // verus!
