//! From a received HTTP request to the envelope that the backend gets.

use vstd::prelude::*;
use crate::envelope::header_pairs;
use crate::envelope::Header;
use crate::envelope::HeaderModel;
use crate::envelope::HttpRequest;
use crate::envelope::HttpRequestModel;
use crate::version::tag_of;
use crate::version::version_tag;
use crate::version::HttpVersion;
use crate::wire::fresh_request_id;
use crate::wire::header_value_text;
use crate::wire::is_request_id;
use crate::wire::bytes_as_text;
use crate::wire::is_visible_text;

verus! {

/// One header line as it was received: its name, and the bytes of its value.
#[derive(Clone, Debug, PartialEq, Eq)]
pub struct WireHeader {
    pub name: String,
    pub value: Vec<u8>,
}

/// What a `WireHeader` holds.
#[verifier::ext_equal]
pub struct WireHeaderModel {
    pub name: Seq<char>,
    pub value: Seq<u8>,
}

impl View for WireHeader {
    type V = WireHeaderModel;

    open spec fn view(&self) -> WireHeaderModel {
        WireHeaderModel { name: self.name@, value: self.value@ }
    }
}

impl DeepView for WireHeader {
    type V = WireHeaderModel;

    open spec fn deep_view(&self) -> WireHeaderModel {
        self@
    }
}

/// A received request without its body: what is known once the header
/// section has been read.
#[derive(Clone, Debug, PartialEq, Eq)]
pub struct RequestHead {
    pub method: String,
    pub uri: String,
    pub version: HttpVersion,
    pub headers: Vec<WireHeader>,
}

/// What a `RequestHead` holds.
#[verifier::ext_equal]
pub struct RequestHeadModel {
    pub method: Seq<char>,
    pub uri: Seq<char>,
    pub version: HttpVersion,
    pub headers: Seq<WireHeaderModel>,
}

impl View for RequestHead {
    type V = RequestHeadModel;

    open spec fn view(&self) -> RequestHeadModel {
        RequestHeadModel {
            method: self.method@,
            uri: self.uri@,
            version: self.version,
            headers: self.headers.deep_view(),
        }
    }
}

/// The text of a received header value in an envelope: its bytes as
/// characters where all of them are visible ASCII, and the empty string
/// otherwise.
pub open spec fn wire_text(raw: Seq<u8>) -> Seq<char> {
    if is_visible_text(raw) {
        bytes_as_text(raw)
    } else {
        Seq::empty()
    }
}

/// The envelope header that one received header line becomes: the same
/// name, and the text of the value as its only value.
pub open spec fn envelope_header(h: WireHeaderModel) -> HeaderModel {
    HeaderModel { key: h.name, values: seq![wire_text(h.value)] }
}

/// The envelope headers of the received header lines: one for each line, in
/// the order received, repeated names not merged.
pub open spec fn envelope_headers(hs: Seq<WireHeaderModel>) -> Seq<HeaderModel> {
    Seq::new(hs.len(), |i: int| envelope_header(hs[i]))
}

/// The envelope of a received request, under a given identifier.
pub open spec fn envelope_of(head: RequestHeadModel, body: Seq<u8>, id: Seq<char>)
    -> HttpRequestModel {
    HttpRequestModel {
        id,
        version: tag_of(head.version),
        method: head.method,
        uri: head.uri,
        body,
        headers: envelope_headers(head.headers),
    }
}

/// The pairs of a name and a value's text that received header lines hold.
pub open spec fn wire_pairs(hs: Seq<WireHeaderModel>) -> Set<(Seq<char>, Seq<char>)> {
    Set::new(
        |p: (Seq<char>, Seq<char>)|
            exists|i: int|
                0 <= i < hs.len() && (#[trigger] hs[i]).name == p.0 && wire_text(hs[i].value)
                    == p.1,
    )
}

/// Reads a received header value as the text that the envelope carries.
fn value_text(raw: &Vec<u8>) -> (text: String)
    ensures
        text@ == wire_text(raw@),
{
    match header_value_text(raw.as_slice()) {
        Some(text) => text,
        None => String::new(),
    }
}

/// Translates the received header lines into envelope headers.
fn translate_headers(headers: &Vec<WireHeader>) -> (out: Vec<Header>)
    ensures
        out.deep_view() == envelope_headers(headers.deep_view()),
{
    let mut out: Vec<Header> = Vec::new();
    let mut i: usize = 0;
    while i < headers.len()
        invariant
            i <= headers.len(),
            out.len() == i,
            forall|k: int|
                0 <= k < i ==> (#[trigger] out[k])@ == envelope_header(headers.deep_view()[k]),
        decreases headers.len() - i,
    {
        let line = &headers[i];
        let text = value_text(&line.value);
        let mut values: Vec<String> = Vec::new();
        values.push(text);
        let entry = Header { key: line.name.clone(), values };
        proof {
            assert(entry.values.deep_view() =~= seq![wire_text(line.value@)]);
            assert(entry@ =~= envelope_header(headers.deep_view()[i as int]));
        }
        out.push(entry);
        i += 1;
    }
    proof {
        assert(out.deep_view() =~= envelope_headers(headers.deep_view()));
    }
    out
}

/// Builds the envelope of a received request whose body has been read in
/// full, under the identifier given.
///
/// Method and URI are copied as they are, the version is written as its tag,
/// each header line becomes one envelope header with one value, and the body
/// is carried over byte for byte.
pub fn translate_request(head: RequestHead, body: Vec<u8>, id: String) -> (env: HttpRequest)
    ensures
        env@ == envelope_of(head@, body@, id@),
{
    let headers = translate_headers(&head.headers);
    let version = version_tag(head.version).to_owned();
    let env = HttpRequest { id, version, method: head.method, uri: head.uri, body, headers };
    proof {
        assert(env@ =~= envelope_of(head@, body@, id@));
    }
    env
}

/// Builds the envelope of a received request under a fresh identifier.
pub fn new_envelope(head: RequestHead, body: Vec<u8>) -> (env: HttpRequest)
    ensures
        is_request_id(env@.id),
        env@ == envelope_of(head@, body@, env@.id),
{
    let id = fresh_request_id();
    translate_request(head, body, id)
}

/// The envelope holds every received header line: the same names, in the
/// same case and order, and as pairs of name and value exactly the pairs
/// received, read as text.
pub proof fn lemma_request_headers_preserved(hs: Seq<WireHeaderModel>)
    ensures
        envelope_headers(hs).len() == hs.len(),
        forall|i: int| 0 <= i < hs.len() ==> (#[trigger] envelope_headers(hs)[i]).key == hs[i].name,
        header_pairs(envelope_headers(hs)) == wire_pairs(hs),
{
    let es = envelope_headers(hs);
    assert forall|p: (Seq<char>, Seq<char>)| header_pairs(es).contains(p) implies wire_pairs(
        hs,
    ).contains(p) by {
        let (i, j) = choose|i: int, j: int|
            0 <= i < es.len() && 0 <= j < es[i].values.len() && es[i].key == p.0
                && #[trigger] es[i].values[j] == p.1;
        assert(hs[i].name == p.0 && wire_text(hs[i].value) == p.1);
    }
    assert forall|p: (Seq<char>, Seq<char>)| wire_pairs(hs).contains(p) implies header_pairs(
        es,
    ).contains(p) by {
        let i = choose|i: int|
            0 <= i < hs.len() && (#[trigger] hs[i]).name == p.0 && wire_text(hs[i].value) == p.1;
        assert(es[i].key == p.0 && es[i].values[0] == p.1);
    }
    assert(header_pairs(es) =~= wire_pairs(hs));
}

/// A value made of visible ASCII reaches the envelope character for
/// character: nothing is lost between the wire and the backend.
pub proof fn lemma_visible_text_kept(raw: Seq<u8>)
    requires
        is_visible_text(raw),
    ensures
        wire_text(raw).len() == raw.len(),
        forall|i: int| 0 <= i < raw.len() ==> (#[trigger] wire_text(raw)[i]) as u32 == raw[i],
{
}

/// A value with a byte that is not visible ASCII reaches the envelope as the
/// empty string.
pub proof fn lemma_other_text_dropped(raw: Seq<u8>)
    requires
        !is_visible_text(raw),
    ensures
        wire_text(raw).len() == 0,
{
}

} // verus!
