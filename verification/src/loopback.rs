//! The URIs that a rewritten playlist holds in place of its children's: each
//! leads back to the proxy and carries the child's upstream address in its
//! `url` parameter.

use vstd::prelude::*;
use vstd::string::StringExecFns;
use vstd::utf8::encode_utf8;
use crate::encode::{is_encoded_char, lemma_encoded_chars, percent_encode, percent_encoded};
use crate::json::{object_of, object_text};
use crate::query::{last_key_index, lookup, pairs_of, parse_query_pairs, query_pairs};
use crate::query::{lemma_last_wins_lookup, lemma_pair_of};
use crate::text::{chars_of, find_from, find_last, first_index, last_index, trim_end_len, trimmed_end};
use crate::text::{lemma_last_index_bounds, lemma_split_head, lemma_split_whole, split};

verus! {

/// The upstream address of a master playlist without its last `/`-segment;
/// the whole address where it holds no `/`.
pub open spec fn master_base(url: Seq<char>) -> Seq<char> {
    let i = last_index(url, '/');
    if i < 0 {
        url
    } else {
        url.take(i)
    }
}

/// The upstream address of a media playlist up to its first `?`.
pub open spec fn media_base(url: Seq<char>) -> Seq<char> {
    url.take(first_index(url, '?'))
}

/// A variant's URI without its trailing commas.
pub open spec fn without_commas(uri: Seq<char>) -> Seq<char> {
    uri.take(trimmed_end(uri, ','))
}

/// The path of a variant's URI: what stands before its first `?`.
pub open spec fn variant_path(uri: Seq<char>) -> Seq<char> {
    let clean = without_commas(uri);
    clean.take(first_index(clean, '?'))
}

/// The raw query of a variant's URI: what stands behind its first `?`, or
/// nothing.
pub open spec fn variant_query(uri: Seq<char>) -> Seq<char> {
    let clean = without_commas(uri);
    let mark = first_index(clean, '?');
    if mark < 0 || mark >= clean.len() {
        Seq::empty()
    } else {
        clean.skip(mark + 1)
    }
}

/// The upstream address of a variant of the master playlist at `url`.
pub open spec fn variant_target(url: Seq<char>, uri: Seq<char>) -> Seq<char> {
    master_base(url) + seq!['/'] + variant_path(uri)
}

/// The upstream address of a segment of the media playlist at `url`.
pub open spec fn segment_target(url: Seq<char>, uri: Seq<char>) -> Seq<char> {
    media_base(url) + seq!['/'] + uri
}

/// The `query` parameter of a variant's loopback URI: the variant's own
/// query pairs as a JSON object, percent-encoded.
pub open spec fn variant_query_parameter(uri: Seq<char>) -> Seq<char> {
    percent_encoded(object_text(query_pairs(variant_query(uri))))
}

/// The loopback URI of a variant: a bare query string, which the viewer
/// resolves against the address of the playlist that it asked for.
pub open spec fn variant_loopback(url: Seq<char>, uri: Seq<char>) -> Seq<char> {
    "?url="@ + variant_target(url, uri) + "&query="@ + variant_query_parameter(uri)
        + "&method=GET"@
}

/// The loopback URI of a segment.
pub open spec fn segment_loopback(url: Seq<char>, uri: Seq<char>) -> Seq<char> {
    "segment?url="@ + segment_target(url, uri) + "&method=GET"@
}

/// A variant's loopback URI is `?` and three parameters: `url` with the
/// variant's upstream address, `query`, and `method=GET`. Cut at `&`, its
/// query string gives exactly these, in this order, as long as the upstream
/// address holds no `&`.
pub proof fn lemma_variant_loopback_parameters(url: Seq<char>, uri: Seq<char>)
    requires
        forall|i: int|
            0 <= i < variant_target(url, uri).len() ==> variant_target(url, uri)[i] != '&',
    ensures
        variant_loopback(url, uri)[0] == '?',
        split(variant_loopback(url, uri).skip(1), '&') == seq![
            "url="@ + variant_target(url, uri),
            "query="@ + variant_query_parameter(uri),
            "method=GET"@,
        ],
{
    reveal_strlit("?url=");
    reveal_strlit("&query=");
    reveal_strlit("&method=GET");
    reveal_strlit("url=");
    reveal_strlit("query=");
    reveal_strlit("method=GET");
    let target = variant_target(url, uri);
    let parameter = variant_query_parameter(uri);
    let first = "url="@ + target;
    let second = "query="@ + parameter;
    let third = "method=GET"@;
    lemma_encoded_chars(encode_utf8(object_text(query_pairs(variant_query(uri)))));
    assert forall|i: int| 0 <= i < second.len() implies second[i] != '&' by {
        if i >= 6 {
            assert(second[i] == parameter[i - 6]);
            assert(is_encoded_char(parameter[i - 6]));
        }
    }
    assert forall|i: int| 0 <= i < first.len() implies first[i] != '&' by {
        if i >= 4 {
            assert(first[i] == target[i - 4]);
        }
    }
    let tail = second + seq!['&'] + third;
    assert(variant_loopback(url, uri).skip(1) =~= first + seq!['&'] + tail);
    lemma_split_head(first, '&', tail);
    lemma_split_head(second, '&', third);
    lemma_split_whole(third, '&');
}

/// A segment's loopback URI is the path `segment`, `?` and two parameters:
/// `url` with the segment's upstream address, and `method=GET`. Cut at `&`,
/// its query string gives exactly these, in this order, as long as the
/// upstream address holds no `&`.
pub proof fn lemma_segment_loopback_parameters(url: Seq<char>, uri: Seq<char>)
    requires
        forall|i: int|
            0 <= i < segment_target(url, uri).len() ==> segment_target(url, uri)[i] != '&',
    ensures
        segment_loopback(url, uri).take(8) == "segment?"@,
        split(segment_loopback(url, uri).skip(8), '&') == seq![
            "url="@ + segment_target(url, uri),
            "method=GET"@,
        ],
{
    reveal_strlit("segment?url=");
    reveal_strlit("segment?");
    reveal_strlit("&method=GET");
    reveal_strlit("url=");
    reveal_strlit("method=GET");
    let target = segment_target(url, uri);
    let first = "url="@ + target;
    let second = "method=GET"@;
    assert forall|i: int| 0 <= i < first.len() implies first[i] != '&' by {
        if i >= 4 {
            assert(first[i] == target[i - 4]);
        }
    }
    assert(segment_loopback(url, uri).take(8) =~= "segment?"@);
    assert(segment_loopback(url, uri).skip(8) =~= first + seq!['&'] + second);
    lemma_split_head(first, '&', second);
    lemma_split_whole(second, '&');
}

/// Read back by this library's own splitting of a query string, a
/// variant's loopback URI names the variant's upstream address as its `url`
/// and `GET` as its `method`, as long as the address holds no `&`.
pub proof fn lemma_variant_loopback_names_target(url: Seq<char>, uri: Seq<char>)
    requires
        forall|i: int|
            0 <= i < variant_target(url, uri).len() ==> variant_target(url, uri)[i] != '&',
    ensures
        lookup(query_pairs(variant_loopback(url, uri).skip(1)), "url"@) == Some(
            variant_target(url, uri),
        ),
        lookup(query_pairs(variant_loopback(url, uri).skip(1)), "method"@) == Some("GET"@),
{
    lemma_variant_loopback_parameters(url, uri);
    reveal_strlit("url=");
    reveal_strlit("url");
    reveal_strlit("query=");
    reveal_strlit("query");
    reveal_strlit("method=GET");
    reveal_strlit("method");
    reveal_strlit("GET");
    let target = variant_target(url, uri);
    let parameter = variant_query_parameter(uri);
    let first = "url="@ + target;
    let second = "query="@ + parameter;
    let third = "method=GET"@;
    assert(first =~= "url"@ + seq!['='] + target);
    assert(second =~= "query"@ + seq!['='] + parameter);
    assert(third =~= "method"@ + seq!['='] + "GET"@);
    lemma_pair_of("url"@, target);
    lemma_pair_of("query"@, parameter);
    lemma_pair_of("method"@, "GET"@);
    let pieces = seq![first, second, third];
    let pairs = seq![("url"@, target), ("query"@, parameter), ("method"@, "GET"@)];
    assert(pieces.drop_last() =~= seq![first, second]);
    assert(seq![first, second].drop_last() =~= seq![first]);
    assert(seq![first].drop_last() =~= Seq::<Seq<char>>::empty());
    assert(pairs_of(Seq::<Seq<char>>::empty()) =~= Seq::empty());
    assert(seq![first].last() == first);
    assert(pairs_of(seq![first]) =~= seq![("url"@, target)]);
    assert(pairs_of(seq![first, second]) =~= seq![("url"@, target), ("query"@, parameter)]);
    assert(pairs_of(pieces) =~= pairs);
    assert(pairs.drop_last() =~= seq![("url"@, target), ("query"@, parameter)]);
    assert(pairs.drop_last().drop_last() =~= seq![("url"@, target)]);
    assert("url"@.len() != "query"@.len() && "url"@.len() != "method"@.len());
    assert("method"@.len() != "query"@.len());
    assert(last_key_index(pairs.drop_last().drop_last(), "url"@) == 0);
    assert(last_key_index(pairs.drop_last(), "url"@) == 0);
    assert(last_key_index(pairs, "url"@) == 0);
    assert(last_key_index(pairs, "method"@) == 2);
    lemma_last_wins_lookup(pairs, "url"@);
    lemma_last_wins_lookup(pairs, "method"@);
}

/// Read back by this library's own splitting of a query string, a
/// segment's loopback URI names the segment's upstream address as its `url`
/// and `GET` as its `method`, as long as the address holds no `&`.
pub proof fn lemma_segment_loopback_names_target(url: Seq<char>, uri: Seq<char>)
    requires
        forall|i: int|
            0 <= i < segment_target(url, uri).len() ==> segment_target(url, uri)[i] != '&',
    ensures
        lookup(query_pairs(segment_loopback(url, uri).skip(8)), "url"@) == Some(
            segment_target(url, uri),
        ),
        lookup(query_pairs(segment_loopback(url, uri).skip(8)), "method"@) == Some("GET"@),
{
    lemma_segment_loopback_parameters(url, uri);
    reveal_strlit("url=");
    reveal_strlit("url");
    reveal_strlit("method=GET");
    reveal_strlit("method");
    reveal_strlit("GET");
    let target = segment_target(url, uri);
    let first = "url="@ + target;
    let second = "method=GET"@;
    assert(first =~= "url"@ + seq!['='] + target);
    assert(second =~= "method"@ + seq!['='] + "GET"@);
    lemma_pair_of("url"@, target);
    lemma_pair_of("method"@, "GET"@);
    let pieces = seq![first, second];
    let pairs = seq![("url"@, target), ("method"@, "GET"@)];
    assert(pieces.drop_last() =~= seq![first]);
    assert(seq![first].drop_last() =~= Seq::<Seq<char>>::empty());
    assert(pairs_of(Seq::<Seq<char>>::empty()) =~= Seq::empty());
    assert(seq![first].last() == first);
    assert(pairs_of(seq![first]) =~= seq![("url"@, target)]);
    assert(pairs_of(pieces) =~= pairs);
    assert(pairs.drop_last() =~= seq![("url"@, target)]);
    assert("url"@.len() != "method"@.len());
    assert(last_key_index(pairs.drop_last(), "url"@) == 0);
    assert(last_key_index(pairs, "url"@) == 0);
    assert(last_key_index(pairs, "method"@) == 1);
    lemma_last_wins_lookup(pairs, "url"@);
    lemma_last_wins_lookup(pairs, "method"@);
}

/// The loopback URI for the variant `uri` of the master playlist that was
/// fetched from `url`.
pub fn variant_loopback_uri(url: &str, uri: &str) -> (out: String)
    ensures
        out@ == variant_loopback(url@, uri@),
{
    let url_chars = chars_of(url);
    let base_end = match find_last(&url_chars, '/') {
        Some(i) => i,
        None => url_chars.len(),
    };
    proof {
        lemma_last_index_bounds(url@, '/');
        assert(url@.take(url@.len() as int) == url@);
    }
    let base = url.substring_char(0, base_end);

    let uri_chars = chars_of(uri);
    let clean_len = trim_end_len(&uri_chars, ',');
    let clean = uri.substring_char(0, clean_len);
    let clean_chars = chars_of(clean);
    let mark = find_from(&clean_chars, '?', 0);
    let path = clean.substring_char(0, mark);
    let raw_query = if mark < clean_chars.len() {
        clean.substring_char(mark + 1, clean_chars.len())
    } else {
        clean.substring_char(mark, mark)
    };
    assert(raw_query@ =~= variant_query(uri@));
    let pairs = parse_query_pairs(raw_query);
    let object = object_of(&pairs);
    let encoded = percent_encode(object.as_str());

    proof {
        reveal_strlit("/");
        assert("/"@ =~= seq!['/']);
    }
    let mut out = String::from_str("?url=");
    out.append(base);
    out.append("/");
    out.append(path);
    out.append("&query=");
    out.append(encoded.as_str());
    out.append("&method=GET");
    assert(out@ =~= variant_loopback(url@, uri@));
    out
}

/// The loopback URI for the segment `uri` of the media playlist that was
/// fetched from `url`.
pub fn segment_loopback_uri(url: &str, uri: &str) -> (out: String)
    ensures
        out@ == segment_loopback(url@, uri@),
{
    let url_chars = chars_of(url);
    let mark = find_from(&url_chars, '?', 0);
    let base = url.substring_char(0, mark);
    proof {
        reveal_strlit("/");
        assert("/"@ =~= seq!['/']);
    }
    let mut out = String::from_str("segment?url=");
    out.append(base);
    out.append("/");
    out.append(uri);
    out.append("&method=GET");
    assert(out@ =~= segment_loopback(url@, uri@));
    out
}

} // verus!
