//! The choice, made once for each connection, between the gateway and the
//! native HTTP handler.
//!
//! A connection goes to the gateway when its first request is an HTTP/2
//! request whose content type announces the framing of a remote call, and to
//! the native handler otherwise.

use vstd::prelude::*;
use vstd::string::is_ascii_spec_bytes;
use crate::request::RequestHead;
use crate::request::RequestHeadModel;
use crate::request::WireHeader;
use crate::request::WireHeaderModel;
use crate::text::str_eq;
use crate::version::HttpVersion;
use crate::wire::canonical_header_name;
use crate::wire::lower_name;

verus! {

/// The handler that a connection is given to.
#[derive(Clone, Copy, Debug, PartialEq, Eq, Structural)]
pub enum Route {
    Gateway,
    Native,
}

/// Whether a header name is `content-type`, in any mix of upper and lower
/// case.
pub open spec fn is_content_type(name: Seq<char>) -> bool {
    lower_name(name) == "content-type"@
}

/// Whether the value of a content type begins with `application/grpc`.
pub open spec fn is_rpc_content_type(value: Seq<u8>) -> bool {
    let prefix = "application/grpc"@;
    &&& value.len() >= prefix.len()
    &&& forall|i: int| 0 <= i < prefix.len() ==> #[trigger] value[i] == prefix[i] as u8
}

/// The value of the first header line that is a content type, if any.
pub open spec fn content_type_of(headers: Seq<WireHeaderModel>) -> Option<Seq<u8>>
    decreases headers.len(),
{
    if headers.len() == 0 {
        None
    } else if is_content_type(headers[0].name) {
        Some(headers[0].value)
    } else {
        content_type_of(headers.drop_first())
    }
}

/// The handler for a connection whose first request is `head`.
pub open spec fn route_of(head: RequestHeadModel) -> Route {
    if head.version == HttpVersion::H2 && (content_type_of(head.headers) matches Some(value)
        && is_rpc_content_type(value)) {
        Route::Gateway
    } else {
        Route::Native
    }
}

/// A name that reads `content-type` in lower case is made of letters and a
/// hyphen, so it is a header name that can go on the wire.
proof fn lemma_content_type_is_header_name(name: Seq<char>)
    requires
        is_content_type(name),
    ensures
        crate::wire::is_header_name(name),
{
    reveal_strlit("content-type");
    let lit = "content-type"@;
    assert(name.len() == lit.len());
    assert forall|i: int| 0 <= i < name.len() implies crate::wire::is_token_char(
        #[trigger] name[i],
    ) by {
        assert(lower_name(name)[i] == lit[i]);
        assert(crate::wire::ascii_lower(name[i]) == lit[i]);
        assert(lit[i] == '-' || ('a' <= lit[i] <= 'z'));
    }
}

/// Tells whether a header line is a content type.
fn names_content_type(line: &WireHeader) -> (yes: bool)
    ensures
        yes == is_content_type(line@.name),
{
    match canonical_header_name(line.name.as_str()) {
        Some(canon) => str_eq(canon.as_str(), "content-type"),
        None => {
            proof {
                if is_content_type(line@.name) {
                    lemma_content_type_is_header_name(line@.name);
                }
            }
            false
        },
    }
}

/// Tells whether the value of a content type announces a remote call.
fn announces_rpc(value: &Vec<u8>) -> (yes: bool)
    ensures
        yes == is_rpc_content_type(value@),
{
    let prefix = "application/grpc";
    let want = prefix.as_bytes();
    proof {
        reveal_strlit("application/grpc");
        assert(vstd::string::is_ascii(prefix));
        is_ascii_spec_bytes(prefix);
        assert(want@ =~= Seq::new(prefix@.len(), |i: int| prefix@[i] as u8));
    }
    if value.len() < want.len() {
        return false;
    }
    let mut i: usize = 0;
    while i < want.len()
        invariant
            i <= want.len(),
            want.len() <= value.len(),
            want@.len() == "application/grpc"@.len(),
            forall|k: int| 0 <= k < want.len() ==> want@[k] == "application/grpc"@[k] as u8,
            forall|k: int| 0 <= k < i ==> value@[k] == "application/grpc"@[k] as u8,
        decreases want.len() - i,
    {
        if value[i] != want[i] {
            return false;
        }
        i += 1;
    }
    true
}

/// Chooses the handler for a connection from its first request: the gateway
/// for an HTTP/2 request whose first content-type header begins with
/// `application/grpc`, the native handler for any other. Header names are
/// compared without regard to case.
pub fn select_handler(head: &RequestHead) -> (route: Route)
    ensures
        route == route_of(head@),
{
    let ghost hs = head@.headers;
    let mut i: usize = 0;
    let mut found: Option<usize> = None;
    proof {
        assert(hs.skip(0) =~= hs);
    }
    while i < head.headers.len() && found.is_none()
        invariant
            i <= head.headers.len(),
            hs == head.headers.deep_view(),
            found is None ==> content_type_of(hs) == content_type_of(hs.skip(i as int)),
            found matches Some(at) ==> at < head.headers.len() && content_type_of(hs) == Some(
                hs[at as int].value,
            ),
        decreases head.headers.len() - i + if found is None { 1int } else { 0int },
    {
        proof {
            assert(hs.skip(i as int)[0] == hs[i as int]);
            assert(hs.skip(i as int).drop_first() =~= hs.skip(i + 1));
        }
        if names_content_type(&head.headers[i]) {
            found = Some(i);
        } else {
            i += 1;
        }
    }
    let is_h2 = match head.version {
        HttpVersion::H2 => true,
        _ => false,
    };
    match found {
        Some(at) => {
            if is_h2 && announces_rpc(&head.headers[at].value) {
                Route::Gateway
            } else {
                Route::Native
            }
        },
        None => {
            proof {
                assert(hs.skip(i as int).len() == 0);
            }
            Route::Native
        },
    }
}

/// The dispatcher of one connection. It remembers the handler chosen for the
/// first request and gives every later request to the same one.
#[derive(Clone, Copy, Debug, PartialEq, Eq, Structural)]
pub struct Multiplexer {
    pub decision: Option<Route>,
}

impl Multiplexer {
    /// The dispatcher of a connection that has had no request yet.
    pub fn new() -> (mux: Multiplexer)
        ensures
            mux.decision is None,
    {
        Multiplexer { decision: None }
    }

    /// Gives the handler for a request on this connection: chosen from the
    /// request where it is the first, and the one chosen before otherwise.
    pub fn route(&mut self, head: &RequestHead) -> (route: Route)
        ensures
            route == routed(old(self).decision, head@),
            final(self).decision == Some(route),
    {
        match self.decision {
            Some(route) => route,
            None => {
                let route = select_handler(head);
                self.decision = Some(route);
                route
            },
        }
    }
}

/// The handler for a request, given what has been decided for its
/// connection so far.
pub open spec fn routed(decision: Option<Route>, head: RequestHeadModel) -> Route {
    match decision {
        Some(route) => route,
        None => route_of(head),
    }
}

/// The handlers that the requests of one connection are given to, in order,
/// given what has been decided before the first of them.
pub open spec fn routes(decision: Option<Route>, heads: Seq<RequestHeadModel>) -> Seq<Route>
    decreases heads.len(),
{
    if heads.len() == 0 {
        Seq::empty()
    } else {
        let first = routed(decision, heads[0]);
        seq![first] + routes(Some(first), heads.drop_first())
    }
}

/// Every request of a connection goes to the handler chosen for the first
/// one, whatever the later requests look like.
pub proof fn lemma_one_handler_per_connection(heads: Seq<RequestHeadModel>)
    ensures
        routes(None, heads).len() == heads.len(),
        forall|i: int|
            0 <= i < heads.len() ==> #[trigger] routes(None, heads)[i] == route_of(heads[0]),
{
    if heads.len() > 0 {
        lemma_decided_stays(route_of(heads[0]), heads.drop_first());
    }
}

/// Once a handler is chosen, every request goes to it.
proof fn lemma_decided_stays(route: Route, heads: Seq<RequestHeadModel>)
    ensures
        routes(Some(route), heads).len() == heads.len(),
        forall|i: int| 0 <= i < heads.len() ==> #[trigger] routes(Some(route), heads)[i] == route,
    decreases heads.len(),
{
    if heads.len() > 0 {
        lemma_decided_stays(route, heads.drop_first());
    }
}

} // verus!
