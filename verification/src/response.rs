//! From the envelope that the backend returned to the HTTP response that the
//! client gets.

use vstd::prelude::*;
use crate::envelope::header_pairs;
use crate::envelope::Header;
use crate::envelope::HeaderModel;
use crate::envelope::HttpResponse;
use crate::envelope::HttpResponseModel;
use crate::version::version_from_tag;
use crate::version::version_of;
use crate::version::HttpVersion;
use crate::wire::canonical_header_name;
use crate::wire::header_value_is_valid;
use crate::wire::is_header_name;
use crate::wire::is_header_value;

verus! {

/// The status sent where the backend's status cannot be used.
pub const FALLBACK_STATUS: u16 = 500;

/// One header line of a response to send.
#[derive(Clone, Debug, PartialEq, Eq)]
pub struct ResponseHeader {
    pub name: String,
    pub value: String,
}

/// What a `ResponseHeader` holds.
#[verifier::ext_equal]
pub struct ResponseHeaderModel {
    pub name: Seq<char>,
    pub value: Seq<char>,
}

impl View for ResponseHeader {
    type V = ResponseHeaderModel;

    open spec fn view(&self) -> ResponseHeaderModel {
        ResponseHeaderModel { name: self.name@, value: self.value@ }
    }
}

impl DeepView for ResponseHeader {
    type V = ResponseHeaderModel;

    open spec fn deep_view(&self) -> ResponseHeaderModel {
        self@
    }
}

/// An HTTP response to send: status, version, header lines in order, and the
/// whole body.
#[derive(Clone, Debug, PartialEq, Eq)]
pub struct OutboundResponse {
    pub status: u16,
    pub version: HttpVersion,
    pub headers: Vec<ResponseHeader>,
    pub body: Vec<u8>,
}

/// What an `OutboundResponse` holds.
#[verifier::ext_equal]
pub struct OutboundResponseModel {
    pub status: int,
    pub version: HttpVersion,
    pub headers: Seq<ResponseHeaderModel>,
    pub body: Seq<u8>,
}

impl View for OutboundResponse {
    type V = OutboundResponseModel;

    open spec fn view(&self) -> OutboundResponseModel {
        OutboundResponseModel {
            status: self.status as int,
            version: self.version,
            headers: self.headers.deep_view(),
            body: self.body@,
        }
    }
}

/// The status that the client sees for a status in an envelope: the same
/// from 100 to 599, and 500 for any other.
pub open spec fn status_of(status: int) -> int {
    if 100 <= status <= 599 {
        status
    } else {
        FALLBACK_STATUS as int
    }
}

/// The header lines written for one name and its values: one line for each
/// value that can go on the wire, in order.
pub open spec fn value_lines(key: Seq<char>, values: Seq<Seq<char>>) -> Seq<ResponseHeaderModel>
    decreases values.len(),
{
    if values.len() == 0 {
        Seq::empty()
    } else {
        let before = value_lines(key, values.drop_last());
        if is_header_value(values.last()) {
            before.push(ResponseHeaderModel { name: key, value: values.last() })
        } else {
            before
        }
    }
}

/// The header lines written for the headers of an envelope: those of each
/// header whose name can go on the wire, in order; a header with another
/// name is left out.
pub open spec fn header_lines(headers: Seq<HeaderModel>) -> Seq<ResponseHeaderModel>
    decreases headers.len(),
{
    if headers.len() == 0 {
        Seq::empty()
    } else {
        let before = header_lines(headers.drop_last());
        let h = headers.last();
        if is_header_name(h.key) {
            before + value_lines(h.key, h.values)
        } else {
            before
        }
    }
}

/// The response sent for a response envelope.
pub open spec fn response_of(resp: HttpResponseModel) -> OutboundResponseModel {
    OutboundResponseModel {
        status: status_of(resp.status),
        version: version_of(resp.version),
        headers: header_lines(resp.headers),
        body: resp.body,
    }
}

/// The pairs of a name and a value that header lines hold.
pub open spec fn line_pairs(lines: Seq<ResponseHeaderModel>) -> Set<(Seq<char>, Seq<char>)> {
    Set::new(
        |p: (Seq<char>, Seq<char>)|
            exists|i: int|
                0 <= i < lines.len() && (#[trigger] lines[i]).name == p.0 && lines[i].value
                    == p.1,
    )
}

/// Whether every name and every value of the headers can go on the wire.
pub open spec fn all_sendable(headers: Seq<HeaderModel>) -> bool {
    forall|i: int|
        0 <= i < headers.len() ==> {
            &&& is_header_name((#[trigger] headers[i]).key)
            &&& forall|j: int|
                0 <= j < headers[i].values.len() ==> is_header_value(
                    #[trigger] headers[i].values[j],
                )
        }
}

/// Replaces a status outside 100 to 599 by 500.
pub fn normalize_status(status: i32) -> (code: u16)
    ensures
        code as int == status_of(status as int),
        100 <= code <= 599,
{
    if 100 <= status && status <= 599 {
        status as u16
    } else {
        FALLBACK_STATUS
    }
}

/// Appends the lines of one header's values to `out`.
fn push_value_lines(out: &mut Vec<ResponseHeader>, header: &Header)
    ensures
        final(out).deep_view() == old(out).deep_view() + value_lines(
            header@.key,
            header@.values,
        ),
{
    let ghost start = out.deep_view();
    let ghost key = header@.key;
    let ghost values = header@.values;
    let mut j: usize = 0;
    proof {
        assert(values.take(0) =~= Seq::<Seq<char>>::empty());
        assert(out.deep_view() =~= start + value_lines(key, values.take(0)));
    }
    while j < header.values.len()
        invariant
            j <= header.values.len(),
            key == header@.key,
            values == header@.values,
            values.len() == header.values.len(),
            out.deep_view() == start + value_lines(key, values.take(j as int)),
        decreases header.values.len() - j,
    {
        let value = &header.values[j];
        let ghost before = out.deep_view();
        proof {
            assert(values.take(j + 1).drop_last() =~= values.take(j as int));
            assert(values.take(j + 1).last() == value@);
        }
        if header_value_is_valid(value.as_str()) {
            let line = ResponseHeader { name: header.key.clone(), value: value.clone() };
            out.push(line);
            proof {
                assert(out.deep_view() =~= before.push(line@));
                assert(out.deep_view() =~= start + value_lines(key, values.take(j + 1)));
            }
        }
        j += 1;
    }
    proof {
        assert(values.take(j as int) =~= values);
    }
}

/// Builds the header lines of a response from the headers of an envelope.
fn translate_headers(headers: &Vec<Header>) -> (out: Vec<ResponseHeader>)
    ensures
        out.deep_view() == header_lines(headers.deep_view()),
{
    let ghost hs = headers.deep_view();
    let mut out: Vec<ResponseHeader> = Vec::new();
    let mut i: usize = 0;
    proof {
        assert(hs.take(0) =~= Seq::<HeaderModel>::empty());
        assert(out.deep_view() =~= header_lines(hs.take(0)));
    }
    while i < headers.len()
        invariant
            i <= headers.len(),
            hs == headers.deep_view(),
            out.deep_view() == header_lines(hs.take(i as int)),
        decreases headers.len() - i,
    {
        let header = &headers[i];
        proof {
            assert(hs.take(i + 1).drop_last() =~= hs.take(i as int));
            assert(hs.take(i + 1).last() == header@);
        }
        if canonical_header_name(header.key.as_str()).is_some() {
            push_value_lines(&mut out, header);
        }
        i += 1;
    }
    proof {
        assert(hs.take(i as int) =~= hs);
    }
    out
}

/// Builds the HTTP response for a response envelope.
///
/// The status is normalized, the version read from its tag, each value of
/// each header written as a line of its own under the header's name as the
/// envelope has it, and the body carried over byte for byte. A header whose
/// name cannot go on the wire is left out with all its values, and so is a
/// single value that cannot.
pub fn translate_response(resp: HttpResponse) -> (out: OutboundResponse)
    ensures
        out@ == response_of(resp@),
{
    let status = normalize_status(resp.status);
    let version = version_from_tag(resp.version.as_str());
    let headers = translate_headers(&resp.headers);
    let out = OutboundResponse { status, version, headers, body: resp.body };
    proof {
        assert(out@ =~= response_of(resp@));
    }
    out
}

/// Whether a pair of name and value can go on the wire.
pub open spec fn is_sendable(p: (Seq<char>, Seq<char>)) -> bool {
    is_header_name(p.0) && is_header_value(p.1)
}

/// The pairs of two runs of lines joined are the pairs of either.
proof fn lemma_line_pairs_add(a: Seq<ResponseHeaderModel>, b: Seq<ResponseHeaderModel>)
    ensures
        line_pairs(a + b) == line_pairs(a).union(line_pairs(b)),
{
    let ab = a + b;
    assert forall|p: (Seq<char>, Seq<char>)| line_pairs(ab).contains(p) implies line_pairs(
        a,
    ).union(line_pairs(b)).contains(p) by {
        let i = choose|i: int|
            0 <= i < ab.len() && (#[trigger] ab[i]).name == p.0 && ab[i].value == p.1;
        if i < a.len() {
            assert(a[i].name == p.0 && a[i].value == p.1);
        } else {
            assert(b[i - a.len()].name == p.0 && b[i - a.len()].value == p.1);
        }
    }
    assert forall|p: (Seq<char>, Seq<char>)|
        line_pairs(a).union(line_pairs(b)).contains(p) implies line_pairs(ab).contains(p) by {
        if line_pairs(a).contains(p) {
            let i = choose|i: int|
                0 <= i < a.len() && (#[trigger] a[i]).name == p.0 && a[i].value == p.1;
            assert(ab[i].name == p.0 && ab[i].value == p.1);
        } else {
            let i = choose|i: int|
                0 <= i < b.len() && (#[trigger] b[i]).name == p.0 && b[i].value == p.1;
            assert(ab[a.len() + i].name == p.0 && ab[a.len() + i].value == p.1);
        }
    }
    assert(line_pairs(ab) =~= line_pairs(a).union(line_pairs(b)));
}

/// The lines written for one name hold that name with each of its values
/// that can go on the wire, and nothing else.
proof fn lemma_value_lines_pairs(key: Seq<char>, values: Seq<Seq<char>>)
    ensures
        forall|p: (Seq<char>, Seq<char>)|
            #[trigger] line_pairs(value_lines(key, values)).contains(p) <==> (p.0 == key
                && is_header_value(p.1) && values.contains(p.1)),
    decreases values.len(),
{
    let lines = value_lines(key, values);
    if values.len() == 0 {
        assert forall|p: (Seq<char>, Seq<char>)|
            #[trigger] line_pairs(lines).contains(p) <==> (p.0 == key && is_header_value(p.1)
                && values.contains(p.1)) by {}
    } else {
        let front = values.drop_last();
        let last = values.last();
        let before = value_lines(key, front);
        lemma_value_lines_pairs(key, front);
        let tail = if is_header_value(last) {
            seq![ResponseHeaderModel { name: key, value: last }]
        } else {
            Seq::<ResponseHeaderModel>::empty()
        };
        assert(lines =~= before + tail);
        lemma_line_pairs_add(before, tail);
        assert forall|p: (Seq<char>, Seq<char>)|
            #[trigger] line_pairs(lines).contains(p) <==> (p.0 == key && is_header_value(p.1)
                && values.contains(p.1)) by {
            assert(line_pairs(before).contains(p) <==> (p.0 == key && is_header_value(p.1)
                && front.contains(p.1)));
            if front.contains(p.1) {
                let j = choose|j: int| 0 <= j < front.len() && front[j] == p.1;
                assert(values[j] == p.1);
            }
            if values.contains(p.1) {
                let j = choose|j: int| 0 <= j < values.len() && values[j] == p.1;
                if j < front.len() {
                    assert(front[j] == p.1);
                } else {
                    assert(last == p.1);
                }
            }
            if line_pairs(tail).contains(p) {
                let i = choose|i: int|
                    0 <= i < tail.len() && (#[trigger] tail[i]).name == p.0 && tail[i].value
                        == p.1;
                assert(values[values.len() - 1] == p.1);
            }
            if p.0 == key && is_header_value(p.1) && last == p.1 {
                assert(tail[0].name == p.0 && tail[0].value == p.1);
            }
        }
    }
}

/// The lines written for a list of headers hold, as pairs of name and
/// value, exactly the pairs of the list that can go on the wire.
proof fn lemma_header_lines_pairs(headers: Seq<HeaderModel>)
    ensures
        forall|p: (Seq<char>, Seq<char>)|
            #[trigger] line_pairs(header_lines(headers)).contains(p) <==> (header_pairs(
                headers,
            ).contains(p) && is_sendable(p)),
    decreases headers.len(),
{
    let lines = header_lines(headers);
    if headers.len() == 0 {
        assert forall|p: (Seq<char>, Seq<char>)|
            #[trigger] line_pairs(lines).contains(p) <==> (header_pairs(headers).contains(p)
                && is_sendable(p)) by {}
    } else {
        let front = headers.drop_last();
        let h = headers.last();
        let before = header_lines(front);
        lemma_header_lines_pairs(front);
        lemma_value_lines_pairs(h.key, h.values);
        let tail = if is_header_name(h.key) {
            value_lines(h.key, h.values)
        } else {
            Seq::<ResponseHeaderModel>::empty()
        };
        assert(lines =~= before + tail);
        lemma_line_pairs_add(before, tail);
        assert forall|p: (Seq<char>, Seq<char>)|
            #[trigger] line_pairs(lines).contains(p) <==> (header_pairs(headers).contains(p)
                && is_sendable(p)) by {
            assert(line_pairs(before).contains(p) <==> (header_pairs(front).contains(p)
                && is_sendable(p)));
            let in_last = h.key == p.0 && h.values.contains(p.1);
            if header_pairs(front).contains(p) {
                let (i, j) = choose|i: int, j: int|
                    0 <= i < front.len() && 0 <= j < front[i].values.len() && front[i].key
                        == p.0 && #[trigger] front[i].values[j] == p.1;
                assert(headers[i].values[j] == p.1);
            }
            if in_last {
                let j = choose|j: int| 0 <= j < h.values.len() && h.values[j] == p.1;
                assert(headers[headers.len() - 1].values[j] == p.1);
            }
            if header_pairs(headers).contains(p) {
                let (i, j) = choose|i: int, j: int|
                    0 <= i < headers.len() && 0 <= j < headers[i].values.len()
                        && headers[i].key == p.0 && #[trigger] headers[i].values[j] == p.1;
                if i < front.len() {
                    assert(front[i].values[j] == p.1);
                } else {
                    assert(h.values[j] == p.1);
                }
            }
            assert(header_pairs(headers).contains(p) <==> (header_pairs(front).contains(p)
                || in_last));
            if line_pairs(tail).contains(p) {
                assert(is_header_name(h.key));
                assert(line_pairs(value_lines(h.key, h.values)).contains(p));
            }
            if in_last && is_sendable(p) {
                assert(line_pairs(value_lines(h.key, h.values)).contains(p));
            }
        }
    }
}

/// The response holds, as pairs of name and value, exactly those pairs of
/// the envelope that can go on the wire, names in the case the envelope has
/// them in. Where every name and value of the envelope can go on the wire,
/// the pairs written back are the pairs of the envelope.
pub proof fn lemma_response_headers_preserved(headers: Seq<HeaderModel>)
    ensures
        line_pairs(header_lines(headers)) == header_pairs(headers).filter(
            |p: (Seq<char>, Seq<char>)| is_sendable(p),
        ),
        all_sendable(headers) ==> line_pairs(header_lines(headers)) == header_pairs(headers),
{
    lemma_header_lines_pairs(headers);
    let written = line_pairs(header_lines(headers));
    let kept = header_pairs(headers).filter(|p: (Seq<char>, Seq<char>)| is_sendable(p));
    assert forall|p: (Seq<char>, Seq<char>)| written.contains(p) <==> kept.contains(p) by {
        assert(written.contains(p) <==> (header_pairs(headers).contains(p) && is_sendable(p)));
    }
    assert(written =~= kept);
    if all_sendable(headers) {
        assert forall|p: (Seq<char>, Seq<char>)| header_pairs(headers).contains(p) implies kept.contains(
            p,
        ) by {
            let (i, j) = choose|i: int, j: int|
                0 <= i < headers.len() && 0 <= j < headers[i].values.len() && headers[i].key
                    == p.0 && #[trigger] headers[i].values[j] == p.1;
            assert(is_header_name(headers[i].key));
            assert(is_header_value(headers[i].values[j]));
        }
        assert(kept =~= header_pairs(headers));
    }
}

/// Whatever status an envelope carries, the status sent is one from 100 to
/// 599, and it is the envelope's own wherever that is in this range.
pub proof fn lemma_status_normalized(status: int)
    ensures
        100 <= status_of(status) <= 599,
        100 <= status <= 599 ==> status_of(status) == status,
        !(100 <= status <= 599) ==> status_of(status) == 500,
{
}

} // verus!
