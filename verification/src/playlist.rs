//! HLS playlists and their rewriting.
//!
//! A playlist is read and written by `m3u8_rs`. The proxy reads and replaces
//! nothing but the URI of each variant and of each segment, so a playlist is
//! held here as those URIs, each beside the `m3u8_rs` value that carries the
//! child's other attributes, unread.
//!
//! The `m3u8_rs` values are private: a playlist is made by `parse_playlist`
//! alone, so that nothing but what `m3u8_rs` itself read, or its own empty
//! playlist, is ever handed back to it for writing.

use vstd::prelude::*;
use vstd::utf8::encode_utf8;
use crate::loopback::{segment_loopback, segment_loopback_uri, variant_loopback};
use crate::loopback::variant_loopback_uri;
use crate::text::{chars_of, contains, contains_chars};

verus! {

#[verifier::external_type_specification]
#[verifier::external_body]
pub struct ExVariantStream(m3u8_rs::VariantStream);

#[verifier::external_type_specification]
#[verifier::external_body]
pub struct ExMasterPlaylist(m3u8_rs::MasterPlaylist);

#[verifier::external_type_specification]
#[verifier::external_body]
pub struct ExMediaSegment(m3u8_rs::MediaSegment);

#[verifier::external_type_specification]
#[verifier::external_body]
pub struct ExMediaPlaylist(m3u8_rs::MediaPlaylist);

/// One variant of a master playlist. `uri` is the variant's URI; the `uri`
/// field inside `attributes` is not read.
#[derive(Debug)]
pub struct Variant {
    uri: String,
    attributes: m3u8_rs::VariantStream,
}

/// A master playlist. `variants` are its variants in order; the `variants`
/// field inside `header` is not read.
#[derive(Debug)]
pub struct MasterList {
    variants: Vec<Variant>,
    header: m3u8_rs::MasterPlaylist,
}

/// One segment of a media playlist. `uri` is the segment's URI; the `uri`
/// field inside `attributes` is not read.
#[derive(Debug)]
pub struct Segment {
    uri: String,
    attributes: m3u8_rs::MediaSegment,
}

/// A media playlist. `segments` are its segments in order; the `segments`
/// field inside `header` is not read.
#[derive(Debug)]
pub struct MediaList {
    segments: Vec<Segment>,
    header: m3u8_rs::MediaPlaylist,
}

impl Variant {
    /// The variant's URI.
    pub fn uri(&self) -> (out: &String)
        ensures
            out@ == self@.uri,
    {
        &self.uri
    }

    /// The variant's attributes other than its URI, as `m3u8_rs` read them.
    pub fn attributes(&self) -> (out: &m3u8_rs::VariantStream)
        ensures
            *out == self@.attributes,
    {
        &self.attributes
    }
}

impl MasterList {
    /// The playlist's variants, in order.
    pub fn variants(&self) -> (out: &Vec<Variant>)
        ensures
            out@.len() == self@.variants.len(),
            forall|i: int| 0 <= i < out@.len() ==> (#[trigger] out@[i])@ == self@.variants[i],
    {
        &self.variants
    }

    /// What the playlist holds beside its variants, as `m3u8_rs` read it.
    pub fn header(&self) -> (out: &m3u8_rs::MasterPlaylist)
        ensures
            *out == self@.header,
    {
        &self.header
    }
}

impl Segment {
    /// The segment's URI.
    pub fn uri(&self) -> (out: &String)
        ensures
            out@ == self@.uri,
    {
        &self.uri
    }

    /// The segment's attributes other than its URI, as `m3u8_rs` read them.
    pub fn attributes(&self) -> (out: &m3u8_rs::MediaSegment)
        ensures
            *out == self@.attributes,
    {
        &self.attributes
    }
}

impl MediaList {
    /// The playlist's segments, in order.
    pub fn segments(&self) -> (out: &Vec<Segment>)
        ensures
            out@.len() == self@.segments.len(),
            forall|i: int| 0 <= i < out@.len() ==> (#[trigger] out@[i])@ == self@.segments[i],
    {
        &self.segments
    }

    /// What the playlist holds beside its segments, as `m3u8_rs` read it.
    pub fn header(&self) -> (out: &m3u8_rs::MediaPlaylist)
        ensures
            *out == self@.header,
    {
        &self.header
    }
}

/// A playlist of either kind.
#[derive(Debug)]
pub enum Playlist {
    Master(MasterList),
    Media(MediaList),
}

/// The mathematical value of a `Variant`.
pub struct VariantModel {
    pub uri: Seq<char>,
    pub attributes: m3u8_rs::VariantStream,
}

/// The mathematical value of a `MasterList`.
pub struct MasterModel {
    pub variants: Seq<VariantModel>,
    pub header: m3u8_rs::MasterPlaylist,
}

/// The mathematical value of a `Segment`.
pub struct SegmentModel {
    pub uri: Seq<char>,
    pub attributes: m3u8_rs::MediaSegment,
}

/// The mathematical value of a `MediaList`.
pub struct MediaModel {
    pub segments: Seq<SegmentModel>,
    pub header: m3u8_rs::MediaPlaylist,
}

/// The mathematical value of a `Playlist`.
pub enum PlaylistModel {
    Master(MasterModel),
    Media(MediaModel),
}

impl View for Variant {
    type V = VariantModel;

    closed spec fn view(&self) -> VariantModel {
        VariantModel { uri: self.uri@, attributes: self.attributes }
    }
}

impl View for MasterList {
    type V = MasterModel;

    closed spec fn view(&self) -> MasterModel {
        MasterModel {
            variants: Seq::new(self.variants@.len(), |i: int| self.variants@[i]@),
            header: self.header,
        }
    }
}

impl View for Segment {
    type V = SegmentModel;

    closed spec fn view(&self) -> SegmentModel {
        SegmentModel { uri: self.uri@, attributes: self.attributes }
    }
}

impl View for MediaList {
    type V = MediaModel;

    closed spec fn view(&self) -> MediaModel {
        MediaModel {
            segments: Seq::new(self.segments@.len(), |i: int| self.segments@[i]@),
            header: self.header,
        }
    }
}

impl View for Playlist {
    type V = PlaylistModel;

    open spec fn view(&self) -> PlaylistModel {
        match self {
            Playlist::Master(p) => PlaylistModel::Master(p@),
            Playlist::Media(p) => PlaylistModel::Media(p@),
        }
    }
}

/// A variant with its URI replaced by its loopback URI.
pub open spec fn retargeted_variant(url: Seq<char>, v: VariantModel) -> VariantModel {
    VariantModel { uri: variant_loopback(url, v.uri), attributes: v.attributes }
}

/// A segment with its URI replaced by its loopback URI.
pub open spec fn retargeted_segment(url: Seq<char>, s: SegmentModel) -> SegmentModel {
    SegmentModel { uri: segment_loopback(url, s.uri), attributes: s.attributes }
}

/// A segment whose URI holds `preloading` is announced before it can be
/// fetched; the proxy leaves it out.
pub open spec fn is_preloading(uri: Seq<char>) -> bool {
    contains(uri, "preloading"@)
}

/// The test that a segment passes when it is kept.
pub open spec fn kept_segment() -> spec_fn(SegmentModel) -> bool {
    |s: SegmentModel| !is_preloading(s.uri)
}

/// The master playlist fetched from `url`, rewritten: every variant in its
/// place with its loopback URI, nothing else changed.
pub open spec fn rewritten_master(playlist: MasterModel, url: Seq<char>) -> MasterModel {
    MasterModel {
        variants: playlist.variants.map_values(|v: VariantModel| retargeted_variant(url, v)),
        header: playlist.header,
    }
}

/// The media playlist fetched from `url`, rewritten: the segments that are
/// not preloading, in their order, each with its loopback URI, nothing else
/// changed.
pub open spec fn rewritten_media(playlist: MediaModel, url: Seq<char>) -> MediaModel {
    MediaModel {
        segments: playlist.segments.filter(kept_segment()).map_values(
            |s: SegmentModel| retargeted_segment(url, s),
        ),
        header: playlist.header,
    }
}

/// A playlist of either kind, rewritten.
pub open spec fn rewritten(playlist: PlaylistModel, url: Seq<char>) -> PlaylistModel {
    match playlist {
        PlaylistModel::Master(p) => PlaylistModel::Master(rewritten_master(p, url)),
        PlaylistModel::Media(p) => PlaylistModel::Media(rewritten_media(p, url)),
    }
}

/// Whether `m3u8_rs` takes `body` for a master playlist: whether, after
/// the `#EXTM3U` line, the first tag that it knows is one of a master
/// playlist.
pub uninterp spec fn declares_master(body: Seq<u8>) -> bool;

/// The URIs of the variants of the master playlist that `m3u8_rs` reads
/// from `body`, in order, or `None` where it reads none.
pub uninterp spec fn master_uris(body: Seq<u8>) -> Option<Seq<Seq<char>>>;

/// The URIs of the segments of the media playlist that `m3u8_rs` reads from
/// `body`, in order, or `None` where it reads none.
pub uninterp spec fn media_uris(body: Seq<u8>) -> Option<Seq<Seq<char>>>;

/// The URIs of the variants of a master playlist, in order.
pub open spec fn variant_uris(playlist: MasterModel) -> Seq<Seq<char>> {
    playlist.variants.map_values(|v: VariantModel| v.uri)
}

/// The URIs of the segments of a media playlist, in order.
pub open spec fn segment_uris(playlist: MediaModel) -> Seq<Seq<char>> {
    playlist.segments.map_values(|s: SegmentModel| s.uri)
}

/// What `body` is read as. A body that declares itself a master playlist is
/// read as one, any other as a media playlist; the children have the URIs
/// that were read, and a body that does not parse gives no children. Of the
/// other attributes nothing is said: they are what `m3u8_rs` read.
pub open spec fn reads_as(body: Seq<u8>, playlist: PlaylistModel) -> bool {
    if declares_master(body) {
        playlist matches PlaylistModel::Master(p) && match master_uris(body) {
            Some(uris) => variant_uris(p) == uris,
            None => p.variants.len() == 0,
        }
    } else {
        playlist matches PlaylistModel::Media(p) && match media_uris(body) {
            Some(uris) => segment_uris(p) == uris,
            None => p.segments.len() == 0,
        }
    }
}

/// Asks `m3u8_rs::is_master_playlist` whether `body` is a master playlist.
/// The answer depends on `body` alone; the contract gives it a name.
#[verifier::external_body]
fn is_master(body: &[u8]) -> (yes: bool)
    ensures
        yes == declares_master(body@),
{
    m3u8_rs::is_master_playlist(body)
}

/// Reads `body` with `m3u8_rs::parse_master_playlist_res` and moves each
/// variant's URI out of the variant. The URIs that are read depend on `body`
/// alone; the contract gives them a name and says nothing of the rest.
#[verifier::external_body]
fn read_master(body: &[u8]) -> (out: Option<MasterList>)
    ensures
        match out {
            Some(p) => master_uris(body@) == Some(variant_uris(p@)),
            None => master_uris(body@).is_none(),
        },
{
    let mut header = m3u8_rs::parse_master_playlist_res(body).ok()?;
    let variants = std::mem::take(&mut header.variants).into_iter().map(
        |mut v| Variant { uri: std::mem::take(&mut v.uri), attributes: v },
    ).collect();
    Some(MasterList { variants, header })
}

/// Reads `body` with `m3u8_rs::parse_media_playlist_res` and moves each
/// segment's URI out of the segment. The URIs that are read depend on `body`
/// alone; the contract gives them a name and says nothing of the rest.
#[verifier::external_body]
fn read_media(body: &[u8]) -> (out: Option<MediaList>)
    ensures
        match out {
            Some(p) => media_uris(body@) == Some(segment_uris(p@)),
            None => media_uris(body@).is_none(),
        },
{
    let mut header = m3u8_rs::parse_media_playlist_res(body).ok()?;
    let segments = std::mem::take(&mut header.segments).into_iter().map(
        |mut s| Segment { uri: std::mem::take(&mut s.uri), attributes: s },
    ).collect();
    Some(MediaList { segments, header })
}

/// The header of a master playlist that holds nothing: `m3u8_rs`'s default.
#[verifier::external_body]
fn blank_master_header() -> m3u8_rs::MasterPlaylist {
    m3u8_rs::MasterPlaylist::default()
}

/// The header of a media playlist that holds nothing: `m3u8_rs`'s default.
#[verifier::external_body]
fn blank_media_header() -> m3u8_rs::MediaPlaylist {
    m3u8_rs::MediaPlaylist::default()
}

/// The text that frames and URIs make when they alternate: the first
/// frame, then each URI followed by the next frame.
pub open spec fn interleaved(frames: Seq<Seq<u8>>, uris: Seq<Seq<u8>>) -> Seq<u8>
    decreases uris.len(),
{
    if frames.len() == 0 {
        Seq::empty()
    } else if uris.len() == 0 || frames.len() == 1 {
        frames[0]
    } else {
        interleaved(frames.drop_last(), uris.drop_last()) + uris.last() + frames.last()
    }
}

/// The bytes of each of the URIs.
pub open spec fn uri_bytes(uris: Seq<Seq<char>>) -> Seq<Seq<u8>> {
    uris.map_values(|u: Seq<char>| encode_utf8(u))
}

/// The first line of every playlist.
pub open spec fn playlist_mark() -> Seq<u8> {
    encode_utf8("#EXTM3U\n"@)
}

/// `text` is a written playlist whose children have the URIs `uris`: it
/// begins with the `#EXTM3U` line, and the URIs stand in it in their order,
/// each once, with the tags and attributes of the playlist before, between
/// and behind them.
pub open spec fn lists_in_order(text: Seq<u8>, uris: Seq<Seq<char>>) -> bool {
    playlist_mark().is_prefix_of(text) && exists|frames: Seq<Seq<u8>>|
        frames.len() == uris.len() + 1 && #[trigger] interleaved(frames, uri_bytes(uris)) == text
}

/// `text` is `playlist`, written: a playlist text that lists the URIs of the
/// playlist's variants or segments in their order.
pub open spec fn written(playlist: PlaylistModel, text: Seq<u8>) -> bool {
    match playlist {
        PlaylistModel::Master(p) => lists_in_order(text, variant_uris(p)),
        PlaylistModel::Media(p) => lists_in_order(text, segment_uris(p)),
    }
}

/// Puts each variant's URI back into the variant and writes the playlist
/// with `m3u8_rs`'s `MasterPlaylist::write_to`, which writes the `#EXTM3U`
/// line, the tags of the header, and then each variant in order: its tag
/// with its attributes and, once, its URI (on a line of its own, or for an
/// I-frame variant as the last attribute). The attributes' text depends on
/// more than the playlist (the order in which unknown attributes are
/// walked), so the contract states where the URIs stand and leaves the rest
/// of the text open. `write_to` fails only where its writer does, and the
/// writer here is a vector in memory, so the writing succeeds.
#[verifier::external_body]
fn write_master(playlist: MasterList) -> (out: Option<Vec<u8>>)
    ensures
        out is Some,
        out matches Some(text) ==> lists_in_order(text@, variant_uris(playlist@)),
{
    let mut whole = playlist.header;
    whole.variants = playlist.variants.into_iter().map(
        |v| m3u8_rs::VariantStream { uri: v.uri, ..v.attributes },
    ).collect();
    let mut text = Vec::new();
    whole.write_to(&mut text).ok()?;
    Some(text)
}

/// Puts each segment's URI back into the segment and writes the playlist
/// with `m3u8_rs`'s `MediaPlaylist::write_to`, which writes the `#EXTM3U`
/// line, the tags of the header, and then each segment in order: its tags
/// and, once, on a line of its own, its URI. The tags' text depends on more
/// than the playlist (a process-wide setting of `m3u8_rs` for the precision
/// of durations, which this library leaves alone), so the contract states
/// where the URIs stand and leaves the rest of the text open. `write_to`
/// fails only where its writer does, and the writer here is a vector in
/// memory, so the writing succeeds. A segment's date is formatted by
/// `chrono`, which takes every date that the parser of `m3u8_rs` gives; the
/// segments of a `MediaList` come from that parser alone.
#[verifier::external_body]
fn write_media(playlist: MediaList) -> (out: Option<Vec<u8>>)
    ensures
        out is Some,
        out matches Some(text) ==> lists_in_order(text@, segment_uris(playlist@)),
{
    let mut whole = playlist.header;
    whole.segments = playlist.segments.into_iter().map(
        |s| m3u8_rs::MediaSegment { uri: s.uri, ..s.attributes },
    ).collect();
    let mut text = Vec::new();
    whole.write_to(&mut text).ok()?;
    Some(text)
}

/// Reads a playlist from the body of an upstream answer. A body that does
/// not parse gives the playlist of its kind that holds nothing.
pub fn parse_playlist(body: &[u8]) -> (out: Playlist)
    ensures
        reads_as(body@, out@),
{
    if is_master(body) {
        match read_master(body) {
            Some(p) => Playlist::Master(p),
            None => Playlist::Master(
                MasterList { variants: Vec::new(), header: blank_master_header() },
            ),
        }
    } else {
        match read_media(body) {
            Some(p) => Playlist::Media(p),
            None => Playlist::Media(
                MediaList { segments: Vec::new(), header: blank_media_header() },
            ),
        }
    }
}

/// Writes a playlist in the HLS grammar. The writing succeeds, and what is
/// written begins with the `#EXTM3U` line and lists the URIs of the
/// playlist's children in their order.
pub fn serialize(playlist: Playlist) -> (out: Option<Vec<u8>>)
    ensures
        out is Some,
        out matches Some(text) ==> written(playlist@, text@),
{
    match playlist {
        Playlist::Master(p) => write_master(p),
        Playlist::Media(p) => write_media(p),
    }
}

/// Rewriting keeps the order of the segments: a media playlist with one
/// more segment at its end is rewritten as before, followed by that segment
/// with its loopback URI, unless the segment is preloading.
pub proof fn lemma_rewritten_media_append(playlist: MediaModel, last: SegmentModel, url: Seq<char>)
    ensures
        rewritten_media(
            MediaModel { segments: playlist.segments.push(last), header: playlist.header },
            url,
        ).segments == if is_preloading(last.uri) {
            rewritten_media(playlist, url).segments
        } else {
            rewritten_media(playlist, url).segments.push(retargeted_segment(url, last))
        },
        rewritten_media(playlist, url).segments.len() <= playlist.segments.len(),
        rewritten_media(playlist, url).header == playlist.header,
{
    reveal(Seq::filter);
    let longer = playlist.segments.push(last);
    assert(longer.drop_last() == playlist.segments);
    let kept = playlist.segments.filter(kept_segment());
    playlist.segments.lemma_filter_len(kept_segment());
    if !is_preloading(last.uri) {
        assert(longer.filter(kept_segment()) == kept.push(last));
        assert(kept.push(last).map_values(|s: SegmentModel| retargeted_segment(url, s))
            =~= kept.map_values(|s: SegmentModel| retargeted_segment(url, s)).push(
            retargeted_segment(url, last),
        ));
    }
}

/// Rewrites the master playlist that was fetched from `url`.
pub fn rewrite_master(playlist: MasterList, url: &str) -> (out: MasterList)
    ensures
        out@ == rewritten_master(playlist@, url@),
        out@.variants.len() == playlist@.variants.len(),
        forall|i: int|
            0 <= i < playlist@.variants.len() ==> {
                &&& (#[trigger] out@.variants[i]).attributes == playlist@.variants[i].attributes
                &&& out@.variants[i].uri == variant_loopback(url@, playlist@.variants[i].uri)
            },
        out@.header == playlist@.header,
{
    let ghost before = playlist@;
    let header = playlist.header;
    let mut variants: Vec<Variant> = Vec::new();
    for v in it: playlist.variants
        invariant
            it.seq() == playlist.variants@,
            variants@.len() == it.index(),
            forall|i: int|
                0 <= i < it.index() ==> (#[trigger] variants@[i])@ == retargeted_variant(
                    url@,
                    it.seq()[i]@,
                ),
    {
        let uri = variant_loopback_uri(url, v.uri.as_str());
        variants.push(Variant { uri, attributes: v.attributes });
    }
    let out = MasterList { variants, header };
    assert(out@.variants =~= rewritten_master(before, url@).variants);
    out
}

/// Rewrites the media playlist that was fetched from `url`.
pub fn rewrite_media(playlist: MediaList, url: &str) -> (out: MediaList)
    ensures
        out@ == rewritten_media(playlist@, url@),
        out@.header == playlist@.header,
{
    let ghost before = playlist@;
    let header = playlist.header;
    let marker = chars_of("preloading");
    let mut segments: Vec<Segment> = Vec::new();
    let ghost mut kept: Seq<SegmentModel> = Seq::empty();
    proof {
        reveal(Seq::filter);
        assert(before.segments.take(0) =~= Seq::empty());
    }
    for s in it: playlist.segments
        invariant
            it.seq() == playlist.segments@,
            before.segments == Seq::new(it.seq().len(), |i: int| it.seq()[i]@),
            marker@ == "preloading"@,
            kept == before.segments.take(it.index()).filter(kept_segment()),
            segments@.len() == kept.len(),
            forall|i: int|
                0 <= i < kept.len() ==> (#[trigger] segments@[i])@ == retargeted_segment(
                    url@,
                    kept[i],
                ),
    {
        proof {
            reveal(Seq::filter);
            let upto = before.segments.take(it.index() + 1);
            assert(upto.drop_last() == before.segments.take(it.index()));
            assert(upto.last() == s@);
        }
        let uri_chars = chars_of(s.uri.as_str());
        if !contains_chars(&uri_chars, &marker) {
            let uri = segment_loopback_uri(url, s.uri.as_str());
            proof {
                kept = kept.push(s@);
            }
            segments.push(Segment { uri, attributes: s.attributes });
        }
    }
    let out = MediaList { segments, header };
    proof {
        assert(before.segments.take(before.segments.len() as int) == before.segments);
        assert(out@.segments =~= rewritten_media(before, url@).segments);
    }
    out
}

/// Rewrites a playlist of either kind that was fetched from `url`.
pub fn rewrite(playlist: Playlist, url: &str) -> (out: Playlist)
    ensures
        out@ == rewritten(playlist@, url@),
{
    match playlist {
        Playlist::Master(p) => Playlist::Master(rewrite_master(p, url)),
        Playlist::Media(p) => Playlist::Media(rewrite_media(p, url)),
    }
}

} // verus!
