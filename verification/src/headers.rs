//! The headers of a request to the upstream service. The service answers
//! only what seems to come from its own player page, so every request names
//! that page as its origin and referrer, whatever the viewer sent.

use vstd::prelude::*;
use vstd::string::{StrSliceExecFns, StringExecFns};
use vstd::utf8::encode_utf8;
use crate::text::chars_of;

verus! {

/// The lower-case form of an ASCII letter; any other character is its own.
pub open spec fn lower(c: char) -> char {
    if 'A' <= c <= 'Z' {
        ((c as u8) + 32) as u8 as char
    } else {
        c
    }
}

/// Two header names are one name where they differ in the case of ASCII
/// letters only.
pub open spec fn same_name(a: Seq<char>, b: Seq<char>) -> bool {
    a.len() == b.len() && forall|i: int| 0 <= i < a.len() ==> lower(a[i]) == lower(b[i])
}

/// The name is `Origin` or `Referer`.
pub open spec fn is_spoofed_name(name: Seq<char>) -> bool {
    same_name(name, "Origin"@) || same_name(name, "Referer"@)
}

/// The origin that every request names.
pub open spec fn origin_value() -> Seq<u8> {
    encode_utf8("https://play.sooplive.co.kr"@)
}

/// The referrer that every request names.
pub open spec fn referer_value() -> Seq<u8> {
    encode_utf8("https://play.sooplive.co.kr/"@)
}

/// The test that a header passes when it is forwarded as the viewer sent it.
pub open spec fn forwarded_header() -> spec_fn((Seq<char>, Seq<u8>)) -> bool {
    |h: (Seq<char>, Seq<u8>)| !is_spoofed_name(h.0)
}

/// The headers of the outbound request: the viewer's without any `Origin` or
/// `Referer`, in their order, then the two that the proxy sets.
pub open spec fn spoofed(headers: Seq<(Seq<char>, Seq<u8>)>) -> Seq<(Seq<char>, Seq<u8>)> {
    headers.filter(forwarded_header()) + seq![
        ("Origin"@, origin_value()),
        ("Referer"@, referer_value()),
    ]
}

/// The headers that the upstream client sends with every request unless the
/// request sets them itself.
pub open spec fn client_headers() -> Seq<(Seq<char>, Seq<u8>)> {
    seq![
        ("Origin"@, origin_value()),
        ("Referer"@, referer_value()),
        (
            "User-Agent"@,
            encode_utf8(
                "Mozilla/5.0 (Windows NT 10.0; Win64; x64) AppleWebKit/537.36 (KHTML, like Gecko) Chrome/131.0.0.0 Safari/537.36"@,
            ),
        ),
        ("Accept"@, encode_utf8("*/*"@)),
        ("Accept-Encoding"@, encode_utf8("deflate, br"@)),
        ("Connection"@, encode_utf8("keep-alive"@)),
    ]
}

/// The views of a list of headers.
pub open spec fn header_views(headers: Seq<(String, Vec<u8>)>) -> Seq<(Seq<char>, Seq<u8>)> {
    Seq::new(headers.len(), |i: int| (headers[i].0@, headers[i].1@))
}

/// Whatever headers come in, the headers that go out hold one `Origin` and
/// one `Referer`, the last two, with the proxy's values.
pub proof fn lemma_spoofed_origin_and_referer(headers: Seq<(Seq<char>, Seq<u8>)>)
    ensures
        spoofed(headers).len() >= 2,
        spoofed(headers)[spoofed(headers).len() - 2] == ("Origin"@, origin_value()),
        spoofed(headers)[spoofed(headers).len() - 1] == ("Referer"@, referer_value()),
        forall|i: int|
            0 <= i < spoofed(headers).len() && same_name(
                #[trigger] spoofed(headers)[i].0,
                "Origin"@,
            ) ==> spoofed(headers)[i].1 == origin_value(),
        forall|i: int|
            0 <= i < spoofed(headers).len() && same_name(
                #[trigger] spoofed(headers)[i].0,
                "Referer"@,
            ) ==> spoofed(headers)[i].1 == referer_value(),
{
    let kept = headers.filter(forwarded_header());
    let out = spoofed(headers);
    reveal_strlit("Origin");
    reveal_strlit("Referer");
    assert("Origin"@.len() != "Referer"@.len());
    assert forall|i: int| 0 <= i < kept.len() implies !is_spoofed_name(kept[i].0) by {
        headers.lemma_filter_pred(forwarded_header(), i);
    }
    assert forall|i: int| 0 <= i < out.len() && same_name(#[trigger] out[i].0, "Origin"@)
        implies out[i].1 == origin_value() by {
        if i < kept.len() {
            assert(out[i] == kept[i]);
        }
    }
    assert forall|i: int| 0 <= i < out.len() && same_name(#[trigger] out[i].0, "Referer"@)
        implies out[i].1 == referer_value() by {
        if i < kept.len() {
            assert(out[i] == kept[i]);
        }
    }
}

/// A header of the given name whose value is the text `value`.
fn header(name: &str, value: &str) -> (out: (String, Vec<u8>))
    ensures
        out.0@ == name@,
        out.1@ == encode_utf8(value@),
{
    (String::from_str(name), value.as_bytes_vec())
}

/// The headers that the upstream client sends with every request.
pub fn default_headers() -> (out: Vec<(String, Vec<u8>)>)
    ensures
        header_views(out@) == client_headers(),
{
    let mut out: Vec<(String, Vec<u8>)> = Vec::new();
    out.push(header("Origin", "https://play.sooplive.co.kr"));
    out.push(header("Referer", "https://play.sooplive.co.kr/"));
    out.push(
        header(
            "User-Agent",
            "Mozilla/5.0 (Windows NT 10.0; Win64; x64) AppleWebKit/537.36 (KHTML, like Gecko) Chrome/131.0.0.0 Safari/537.36",
        ),
    );
    out.push(header("Accept", "*/*"));
    out.push(header("Accept-Encoding", "deflate, br"));
    out.push(header("Connection", "keep-alive"));
    assert(header_views(out@) =~= client_headers());
    out
}

fn lower_case(c: char) -> (out: char)
    ensures
        out == lower(c),
{
    if 'A' <= c && c <= 'Z' {
        ((c as u8) + 32) as char
    } else {
        c
    }
}

/// Whether `name` is the header name `known` but for the case of its letters.
pub fn is_name(name: &str, known: &str) -> (yes: bool)
    ensures
        yes == same_name(name@, known@),
{
    let a = chars_of(name);
    let b = chars_of(known);
    if a.len() != b.len() {
        return false;
    }
    let mut i: usize = 0;
    while i < a.len()
        invariant
            i <= a@.len(),
            a@.len() == b@.len(),
            a@ == name@,
            b@ == known@,
            forall|j: int| 0 <= j < i ==> lower(a@[j]) == lower(b@[j]),
        decreases a@.len() - i,
    {
        if lower_case(a[i]) != lower_case(b[i]) {
            return false;
        }
        i = i + 1;
    }
    true
}

/// The headers of the outbound request for a request that came with
/// `headers`.
pub fn spoof(headers: Vec<(String, Vec<u8>)>) -> (out: Vec<(String, Vec<u8>)>)
    ensures
        header_views(out@) == spoofed(header_views(headers@)),
{
    let ghost before = header_views(headers@);
    let mut out: Vec<(String, Vec<u8>)> = Vec::new();
    proof {
        reveal(Seq::filter);
        assert(before.take(0) =~= Seq::empty());
        assert(header_views(out@) =~= Seq::empty());
    }
    for h in it: headers
        invariant
            it.seq() == headers@,
            before == header_views(headers@),
            header_views(out@) == before.take(it.index()).filter(forwarded_header()),
    {
        let ghost kept = header_views(out@);
        proof {
            reveal(Seq::filter);
            let upto = before.take(it.index() + 1);
            assert(upto.drop_last() == before.take(it.index()));
            assert(upto.last() == (h.0@, h.1@));
        }
        if !is_name(h.0.as_str(), "Origin") && !is_name(h.0.as_str(), "Referer") {
            let ghost view = (h.0@, h.1@);
            out.push(h);
            assert(header_views(out@) =~= kept.push(view));
        }
    }
    let ghost kept = header_views(out@);
    out.push(header("Origin", "https://play.sooplive.co.kr"));
    out.push(header("Referer", "https://play.sooplive.co.kr/"));
    proof {
        assert(before.take(before.len() as int) == before);
        assert(header_views(out@) =~= spoofed(before));
    }
    out
}

} // verus!
