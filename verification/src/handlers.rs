//! Two small backends: what a backend has to offer the gateway is one
//! operation from a request envelope to a response envelope.

use vstd::prelude::*;
use crate::envelope::Header;
use crate::envelope::HeaderModel;
use crate::envelope::HttpRequest;
use crate::envelope::HttpRequestModel;
use crate::envelope::HttpResponse;
use crate::envelope::HttpResponseModel;
use crate::version::is_known_tag;

verus! {

/// The status of a successful response.
pub const STATUS_OK: i32 = 200;

/// The answer of the echoing backend: status 200, with the version, the
/// headers and the body of the request.
pub open spec fn echo_of(request: HttpRequestModel) -> HttpResponseModel {
    HttpResponseModel {
        version: request.version,
        status: STATUS_OK as int,
        headers: request.headers,
        body: request.body,
    }
}

/// The answer of the fixed backend: status 200, the version tag `HTTP/1.1`,
/// the headers `test1` and `test2` with the value `1234` each, and the body
/// `Pong`.
pub open spec fn pong_of() -> HttpResponseModel {
    HttpResponseModel {
        version: "HTTP/1.1"@,
        status: STATUS_OK as int,
        headers: seq![
            HeaderModel { key: "test1"@, values: seq!["1234"@] },
            HeaderModel { key: "test2"@, values: seq!["1234"@] },
        ],
        body: seq![0x50u8, 0x6fu8, 0x6eu8, 0x67u8],
    }
}

/// A backend that sends back what it was sent.
pub fn echo(request: HttpRequest) -> (response: HttpResponse)
    ensures
        response@ == echo_of(request@),
{
    let response = HttpResponse {
        version: request.version,
        status: STATUS_OK,
        headers: request.headers,
        body: request.body,
    };
    proof {
        assert(response@ =~= echo_of(request@));
    }
    response
}

/// Makes a header with one value.
fn single(key: &str, value: &str) -> (header: Header)
    ensures
        header@ == (HeaderModel { key: key@, values: seq![value@] }),
{
    let mut values: Vec<String> = Vec::new();
    values.push(value.to_owned());
    let header = Header { key: key.to_owned(), values };
    proof {
        assert(header.values.deep_view() =~= seq![value@]);
    }
    header
}

/// A backend that gives the same answer to every request.
pub fn pong() -> (response: HttpResponse)
    ensures
        response@ == pong_of(),
        is_known_tag(response@.version),
        100 <= response@.status <= 599,
{
    let mut headers: Vec<Header> = Vec::new();
    headers.push(single("test1", "1234"));
    headers.push(single("test2", "1234"));
    let mut body: Vec<u8> = Vec::new();
    body.push(0x50u8);
    body.push(0x6fu8);
    body.push(0x6eu8);
    body.push(0x67u8);
    let response = HttpResponse { version: "HTTP/1.1".to_owned(), status: STATUS_OK, headers, body };
    proof {
        assert(response.headers.deep_view() =~= pong_of().headers);
        assert(response.body@ =~= pong_of().body);
        assert(response@ =~= pong_of());
    }
    response
}

/// Both backends answer within the envelope format: the status is one from
/// 100 to 599, and the version tag is one of the five that the format knows,
/// for the echoing backend wherever the request's tag is one.
pub proof fn lemma_answers_fit_the_envelope(request: HttpRequestModel)
    ensures
        is_known_tag(pong_of().version),
        100 <= pong_of().status <= 599,
        100 <= echo_of(request).status <= 599,
        is_known_tag(request.version) ==> is_known_tag(echo_of(request).version),
{
}

} // verus!
