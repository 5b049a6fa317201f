//! Boundary to the tag-reading library.
//!
//! The `lofty` crate parses tag containers (ID3, Vorbis comments, ...) out of
//! an audio byte stream. Its `TaggedFile` and `Tag` values are opaque here;
//! the small wrappers below copy the fields the resolver reads into plain
//! values of this crate, on which all further logic is verified.

use vstd::prelude::*;

verus! {

#[verifier::external_type_specification]
#[verifier::external_body]
pub struct ExTaggedFile(lofty::file::TaggedFile);

#[verifier::external_type_specification]
#[verifier::external_body]
pub struct ExTag(lofty::tag::Tag);

/// Relies on lofty's `TaggedFileExt::primary_tag`: the tag of the format's
/// preferred container, if present.
#[verifier::external_body]
pub(crate) fn primary_tag_of(f: &lofty::file::TaggedFile) -> Option<&lofty::tag::Tag> {
    lofty::file::TaggedFileExt::primary_tag(f)
}

/// Relies on lofty's `TaggedFileExt::tags`: every tag container found in the
/// file, in order.
#[verifier::external_body]
pub(crate) fn tags_of(f: &lofty::file::TaggedFile) -> &[lofty::tag::Tag] {
    lofty::file::TaggedFileExt::tags(f)
}

/// Relies on lofty's `AudioFile::properties`: the stream duration in whole
/// seconds.
#[verifier::external_body]
pub(crate) fn duration_secs_of(f: &lofty::file::TaggedFile) -> u64 {
    lofty::file::AudioFile::properties(f).duration().as_secs()
}

/// Relies on lofty's `Accessor::artist`.
#[verifier::external_body]
pub(crate) fn tag_artist(t: &lofty::tag::Tag) -> Option<String> {
    lofty::tag::Accessor::artist(t).map(|s| s.into_owned())
}

/// Relies on lofty's `Accessor::title`.
#[verifier::external_body]
pub(crate) fn tag_title(t: &lofty::tag::Tag) -> Option<String> {
    lofty::tag::Accessor::title(t).map(|s| s.into_owned())
}

/// Relies on lofty's `Accessor::album`.
#[verifier::external_body]
pub(crate) fn tag_album(t: &lofty::tag::Tag) -> Option<String> {
    lofty::tag::Accessor::album(t).map(|s| s.into_owned())
}

/// Relies on lofty's `Tag::pictures` and `Picture::data`: the raw bytes of
/// the first embedded picture, if the tag carries one.
#[verifier::external_body]
pub(crate) fn tag_picture(t: &lofty::tag::Tag) -> Option<Vec<u8>> {
    t.pictures().first().map(|p| p.data().to_vec())
}

/// The fields the resolver reads from one tag container, as plain values.
pub struct ParsedTag {
    pub artist: Option<String>,
    pub title: Option<String>,
    pub album: Option<String>,
    pub picture: Option<Vec<u8>>,
}

/// Mathematical image of a `ParsedTag`.
pub ghost struct ParsedTagView {
    pub artist: Option<Seq<char>>,
    pub title: Option<Seq<char>>,
    pub album: Option<Seq<char>>,
    pub picture: Option<Seq<u8>>,
}

impl View for ParsedTag {
    type V = ParsedTagView;

    open spec fn view(&self) -> ParsedTagView {
        ParsedTagView {
            artist: self.artist.deep_view(),
            title: self.title.deep_view(),
            album: self.album.deep_view(),
            picture: self.picture.deep_view(),
        }
    }
}

/// View of an optional tag.
pub open spec fn spec_opt_tag_view(o: Option<ParsedTag>) -> Option<ParsedTagView> {
    match o {
        Some(t) => Some(t@),
        None => None,
    }
}

/// Views of a sequence of tags, in order.
pub open spec fn spec_tag_views(s: Seq<ParsedTag>) -> Seq<ParsedTagView> {
    s.map_values(|t: ParsedTag| t@)
}

/// Everything the resolver reads from one parsed file.
pub struct ParsedFile {
    /// The preferred container's tag, when the format has one.
    pub primary: Option<ParsedTag>,
    /// Every tag container found, in file order.
    pub tags: Vec<ParsedTag>,
    /// Stream duration in whole seconds.
    pub duration: u64,
}

/// Mathematical image of a `ParsedFile`.
pub ghost struct ParsedFileView {
    pub primary: Option<ParsedTagView>,
    pub tags: Seq<ParsedTagView>,
    pub duration: u64,
}

impl View for ParsedFile {
    type V = ParsedFileView;

    open spec fn view(&self) -> ParsedFileView {
        ParsedFileView {
            primary: spec_opt_tag_view(self.primary),
            tags: spec_tag_views(self.tags@),
            duration: self.duration,
        }
    }
}

fn read_tag(t: &lofty::tag::Tag) -> ParsedTag {
    ParsedTag {
        artist: tag_artist(t),
        title: tag_title(t),
        album: tag_album(t),
        picture: tag_picture(t),
    }
}

/// Copies every field the resolver reads out of a parsed file. The tag
/// values themselves are opaque, so nothing is claimed of the copies.
pub(crate) fn read_parsed(f: &lofty::file::TaggedFile) -> ParsedFile {
    let primary = match primary_tag_of(f) {
        Some(t) => Some(read_tag(t)),
        None => None,
    };
    let ts = tags_of(f);
    let mut tags: Vec<ParsedTag> = Vec::new();
    let n = ts.len();
    let mut i: usize = 0;
    while i < n
        invariant
            n == ts@.len(),
            i <= n,
        decreases n - i,
    {
        tags.push(read_tag(vstd::slice::slice_index_get(ts, i)));
        i = i + 1;
    }
    ParsedFile { primary, tags, duration: duration_secs_of(f) }
}

/// The fields lofty's parse yields for a byte stream, as plain values:
/// `None` when the bytes are not recognizable audio. Parsing is a
/// function of the bytes alone, so the same bytes always give the same
/// outcome.
pub uninterp spec fn parsed_of(data: Seq<u8>) -> Option<ParsedFileView>;

/// View of an optional parsed file.
pub open spec fn spec_opt_file_view(o: Option<ParsedFile>) -> Option<ParsedFileView> {
    match o {
        Some(f) => Some(f@),
        None => None,
    }
}

/// Parses the tag containers out of a file's bytes: `None` when the bytes
/// are not recognizable audio; malformed input is an ordinary `None`,
/// never a panic. Relies on lofty's `Probe::guess_file_type` and
/// `Probe::read`; `read_parsed` copies the result into plain values.
#[verifier::external_body]
pub fn parse_file_bytes(data: &[u8]) -> (r: Option<ParsedFile>)
    ensures
        spec_opt_file_view(r) == parsed_of(data@),
{
    let probe = lofty::probe::Probe::new(std::io::Cursor::new(data));
    let tagged = probe.guess_file_type().ok().and_then(|p| p.read().ok());
    tagged.map(|f| read_parsed(&f))
}

} // verus!
