//! The protocol version of a message and its tag in an envelope.

use vstd::prelude::*;
use crate::text::str_eq;

verus! {

/// The protocol version that a request arrived with, or that a response is
/// sent with. `Unknown` stands for any version the transport reports that is
/// none of the five named ones.
#[derive(Clone, Copy, Debug, PartialEq, Eq, Structural)]
pub enum HttpVersion {
    Http09,
    Http10,
    Http11,
    H2,
    H3,
    Unknown,
}

/// The tag that an envelope carries for a version. An unknown version is
/// tagged as HTTP/1.1.
pub open spec fn tag_of(v: HttpVersion) -> Seq<char> {
    match v {
        HttpVersion::Http09 => "HTTP/0.9"@,
        HttpVersion::Http10 => "HTTP/1.0"@,
        HttpVersion::Http11 => "HTTP/1.1"@,
        HttpVersion::H2 => "HTTP/2.0"@,
        HttpVersion::H3 => "HTTP/3.0"@,
        HttpVersion::Unknown => "HTTP/1.1"@,
    }
}

/// The version that a tag names. A tag that is none of the five is read as
/// HTTP/1.1; the result is never `Unknown`.
pub open spec fn version_of(tag: Seq<char>) -> HttpVersion {
    if tag == "HTTP/0.9"@ {
        HttpVersion::Http09
    } else if tag == "HTTP/1.0"@ {
        HttpVersion::Http10
    } else if tag == "HTTP/2.0"@ {
        HttpVersion::H2
    } else if tag == "HTTP/3.0"@ {
        HttpVersion::H3
    } else {
        HttpVersion::Http11
    }
}

/// Whether a tag is one of the five that the envelope format knows.
pub open spec fn is_known_tag(tag: Seq<char>) -> bool {
    tag == "HTTP/0.9"@ || tag == "HTTP/1.0"@ || tag == "HTTP/1.1"@ || tag == "HTTP/2.0"@ || tag
        == "HTTP/3.0"@
}

/// Maps a version to its envelope tag.
pub fn version_tag(v: HttpVersion) -> (tag: &'static str)
    ensures
        tag@ == tag_of(v),
{
    match v {
        HttpVersion::Http09 => "HTTP/0.9",
        HttpVersion::Http10 => "HTTP/1.0",
        HttpVersion::Http11 => "HTTP/1.1",
        HttpVersion::H2 => "HTTP/2.0",
        HttpVersion::H3 => "HTTP/3.0",
        HttpVersion::Unknown => "HTTP/1.1",
    }
}

/// Maps an envelope tag back to a version.
pub fn version_from_tag(tag: &str) -> (v: HttpVersion)
    ensures
        v == version_of(tag@),
{
    if str_eq(tag, "HTTP/0.9") {
        HttpVersion::Http09
    } else if str_eq(tag, "HTTP/1.0") {
        HttpVersion::Http10
    } else if str_eq(tag, "HTTP/2.0") {
        HttpVersion::H2
    } else if str_eq(tag, "HTTP/3.0") {
        HttpVersion::H3
    } else {
        HttpVersion::Http11
    }
}

/// The five tags are pairwise different: each differs from the others in
/// its sixth or its eighth character.
pub proof fn lemma_tags_distinct()
    ensures
        "HTTP/0.9"@ != "HTTP/1.0"@,
        "HTTP/0.9"@ != "HTTP/1.1"@,
        "HTTP/0.9"@ != "HTTP/2.0"@,
        "HTTP/0.9"@ != "HTTP/3.0"@,
        "HTTP/1.0"@ != "HTTP/1.1"@,
        "HTTP/1.0"@ != "HTTP/2.0"@,
        "HTTP/1.0"@ != "HTTP/3.0"@,
        "HTTP/1.1"@ != "HTTP/2.0"@,
        "HTTP/1.1"@ != "HTTP/3.0"@,
        "HTTP/2.0"@ != "HTTP/3.0"@,
{
    reveal_strlit("HTTP/0.9");
    reveal_strlit("HTTP/1.0");
    reveal_strlit("HTTP/1.1");
    reveal_strlit("HTTP/2.0");
    reveal_strlit("HTTP/3.0");
    assert("HTTP/0.9"@[5] == '0' && "HTTP/0.9"@[7] == '9');
    assert("HTTP/1.0"@[5] == '1' && "HTTP/1.0"@[7] == '0');
    assert("HTTP/1.1"@[5] == '1' && "HTTP/1.1"@[7] == '1');
    assert("HTTP/2.0"@[5] == '2' && "HTTP/2.0"@[7] == '0');
    assert("HTTP/3.0"@[5] == '3' && "HTTP/3.0"@[7] == '0');
}

/// A named version survives the trip through its tag: reading back the tag
/// of a version gives that version, and HTTP/1.1 for an unknown one.
pub proof fn lemma_version_round_trip(v: HttpVersion)
    ensures
        v != HttpVersion::Unknown ==> version_of(tag_of(v)) == v,
        v == HttpVersion::Unknown ==> version_of(tag_of(v)) == HttpVersion::Http11,
        version_of(tag_of(v)) != HttpVersion::Unknown,
{
    lemma_tags_distinct();
}

/// A known tag survives the trip through its version exactly; any other tag
/// comes back as "HTTP/1.1".
pub proof fn lemma_tag_round_trip(tag: Seq<char>)
    ensures
        is_known_tag(tag) ==> tag_of(version_of(tag)) == tag,
        !is_known_tag(tag) ==> tag_of(version_of(tag)) == "HTTP/1.1"@,
        is_known_tag(tag_of(version_of(tag))),
{
    lemma_tags_distinct();
}

} // verus!
