//! The envelopes exchanged with the backend: a request, a response, and the
//! headers that both carry.

use vstd::prelude::*;

verus! {

/// One header of an envelope: a name in the case it was received in, and the
/// values given under it, in order.
#[derive(Clone, Debug, PartialEq, Eq)]
pub struct Header {
    pub key: String,
    pub values: Vec<String>,
}

/// What a `Header` holds.
#[verifier::ext_equal]
pub struct HeaderModel {
    pub key: Seq<char>,
    pub values: Seq<Seq<char>>,
}

impl View for Header {
    type V = HeaderModel;

    open spec fn view(&self) -> HeaderModel {
        HeaderModel { key: self.key@, values: self.values.deep_view() }
    }
}

impl DeepView for Header {
    type V = HeaderModel;

    open spec fn deep_view(&self) -> HeaderModel {
        self@
    }
}

/// The envelope of a request on its way to the backend.
#[derive(Clone, Debug, PartialEq, Eq)]
pub struct HttpRequest {
    pub id: String,
    pub version: String,
    pub method: String,
    pub uri: String,
    pub body: Vec<u8>,
    pub headers: Vec<Header>,
}

/// What an `HttpRequest` holds.
#[verifier::ext_equal]
pub struct HttpRequestModel {
    pub id: Seq<char>,
    pub version: Seq<char>,
    pub method: Seq<char>,
    pub uri: Seq<char>,
    pub body: Seq<u8>,
    pub headers: Seq<HeaderModel>,
}

impl View for HttpRequest {
    type V = HttpRequestModel;

    open spec fn view(&self) -> HttpRequestModel {
        HttpRequestModel {
            id: self.id@,
            version: self.version@,
            method: self.method@,
            uri: self.uri@,
            body: self.body@,
            headers: self.headers.deep_view(),
        }
    }
}

/// The envelope of a response on its way back from the backend.
#[derive(Clone, Debug, PartialEq, Eq)]
pub struct HttpResponse {
    pub version: String,
    pub status: i32,
    pub headers: Vec<Header>,
    pub body: Vec<u8>,
}

/// What an `HttpResponse` holds.
#[verifier::ext_equal]
pub struct HttpResponseModel {
    pub version: Seq<char>,
    pub status: int,
    pub headers: Seq<HeaderModel>,
    pub body: Seq<u8>,
}

impl View for HttpResponse {
    type V = HttpResponseModel;

    open spec fn view(&self) -> HttpResponseModel {
        HttpResponseModel {
            version: self.version@,
            status: self.status as int,
            headers: self.headers.deep_view(),
            body: self.body@,
        }
    }
}

/// The pairs of a name and one of its values that a list of headers holds.
pub open spec fn header_pairs(headers: Seq<HeaderModel>) -> Set<(Seq<char>, Seq<char>)> {
    Set::new(
        |p: (Seq<char>, Seq<char>)|
            exists|i: int, j: int|
                0 <= i < headers.len() && 0 <= j < headers[i].values.len() && headers[i].key
                    == p.0 && #[trigger] headers[i].values[j] == p.1,
    )
}

} // verus!
