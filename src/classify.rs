//! Content classification: a sniffed format where one is recognised, else a
//! static table over the file name's extension.
use vstd::prelude::*;
use vstd::string::StrSliceExecFns;
use crate::paths::{extension, extension_of, file_name, file_name_of, str_eq};

verus! {

/// Coarse content category of a media file.
#[derive(Clone, Copy, Debug, PartialEq, Eq, Structural)]
pub enum MediaKind {
    Image,
    Video,
    Audio,
    Other,
}

impl MediaKind {
    /// The name under which the kind is presented to the host.
    pub fn label(&self) -> (r: &'static str)
        ensures
            r@ == self.label_spec(),
    {
        match self {
            MediaKind::Image => "image",
            MediaKind::Video => "video",
            MediaKind::Audio => "audio",
            MediaKind::Other => "unknown",
        }
    }

    pub open spec fn label_spec(&self) -> Seq<char> {
        match self {
            MediaKind::Image => "image"@,
            MediaKind::Video => "video"@,
            MediaKind::Audio => "audio"@,
            MediaKind::Other => "unknown"@,
        }
    }
}

/// What content sniffing reports of a file: its kind and canonical extension.
pub struct Sniffed {
    pub kind: MediaKind,
    pub extension: String,
}

/// The lowercase form of a string, as `str::to_lowercase` computes it.
pub uninterp spec fn lower_of(s: Seq<char>) -> Seq<char>;

/// ASCII text without uppercase letters, which lowercasing leaves as it is.
pub open spec fn is_lowercase_ascii(s: Seq<char>) -> bool {
    forall|i: int| 0 <= i < s.len() ==> (#[trigger] s[i]) < '\u{80}' && !('A' <= s[i] && s[i] <= 'Z')
}

/// Relies on `str::to_lowercase`: the result depends on the characters alone,
/// and an ASCII character other than an uppercase letter is its own lowercase.
#[verifier::external_body]
fn lowercase(s: &str) -> (r: String)
    ensures
        r@ == lower_of(s@),
        is_lowercase_ascii(s@) ==> r@ == s@,
{
    s.to_lowercase()
}

/// Relies on `file_format::FileFormat::from_file`: reads the file's leading
/// bytes and matches them against known signatures. What it finds depends on
/// the file on disk, so nothing is promised of the outcome.
#[verifier::external_body]
pub(crate) fn sniff_file(path: &str) -> (r: Option<Sniffed>)
{
    file_format::FileFormat::from_file(path).ok().map(|f| Sniffed {
        kind: match f.kind() {
            file_format::Kind::Image => MediaKind::Image,
            file_format::Kind::Video => MediaKind::Video,
            file_format::Kind::Audio => MediaKind::Audio,
            _ => MediaKind::Other,
        },
        extension: f.extension().to_string(),
    })
}

pub open spec fn is_video_extension(e: Seq<char>) -> bool {
    e == "mp4"@ || e == "m4v"@ || e == "mov"@ || e == "avi"@ || e == "mkv"@ || e == "webm"@ || e
        == "flv"@
}

pub open spec fn is_image_extension(e: Seq<char>) -> bool {
    e == "jpg"@ || e == "jpeg"@ || e == "png"@ || e == "gif"@ || e == "bmp"@ || e == "webp"@ || e
        == "svg"@
}

pub open spec fn is_audio_extension(e: Seq<char>) -> bool {
    e == "mp3"@ || e == "wav"@ || e == "flac"@ || e == "aac"@ || e == "ogg"@
}

/// The fallback table from a lowercase extension to a kind.
pub open spec fn kind_for_extension_spec(e: Seq<char>) -> MediaKind {
    if is_video_extension(e) {
        MediaKind::Video
    } else if is_image_extension(e) {
        MediaKind::Image
    } else if is_audio_extension(e) {
        MediaKind::Audio
    } else {
        MediaKind::Other
    }
}

/// Looks an extension up in the fallback table.
pub fn kind_for_extension(e: &str) -> (r: MediaKind)
    ensures
        r == kind_for_extension_spec(e@),
{
    if str_eq(e, "mp4") || str_eq(e, "m4v") || str_eq(e, "mov") || str_eq(e, "avi") || str_eq(
        e,
        "mkv",
    ) || str_eq(e, "webm") || str_eq(e, "flv") {
        MediaKind::Video
    } else if str_eq(e, "jpg") || str_eq(e, "jpeg") || str_eq(e, "png") || str_eq(e, "gif")
        || str_eq(e, "bmp") || str_eq(e, "webp") || str_eq(e, "svg") {
        MediaKind::Image
    } else if str_eq(e, "mp3") || str_eq(e, "wav") || str_eq(e, "flac") || str_eq(e, "aac")
        || str_eq(e, "ogg") {
        MediaKind::Audio
    } else {
        MediaKind::Other
    }
}

/// The lowercase extension of a path's file name, empty where it has none.
pub open spec fn fallback_extension(path: Seq<char>) -> Seq<char> {
    lower_of(extension_of(file_name_of(path)))
}

/// A sniffed extension that says nothing about the content.
pub open spec fn is_placeholder_extension(e: Seq<char>) -> bool {
    e.len() == 0 || e == "bin"@
}

/// The kind and extension reported for a file at `path`, given what sniffing found.
pub open spec fn classify_spec(sniffed: Option<(MediaKind, Seq<char>)>, path: Seq<char>) -> (
    MediaKind,
    Seq<char>,
) {
    match sniffed {
        Some((k, e)) if !is_placeholder_extension(e) => (k, e),
        _ => (kind_for_extension_spec(fallback_extension(path)), fallback_extension(path)),
    }
}

/// The extension of a path's file name as written.
pub open spec fn raw_extension(path: Seq<char>) -> Seq<char> {
    extension_of(file_name_of(path))
}

/// Whether a sniff result leaves the classification to the extension table.
pub open spec fn uses_fallback(sniffed: Option<(MediaKind, Seq<char>)>) -> bool {
    match sniffed {
        Some((_, e)) => is_placeholder_extension(e),
        None => true,
    }
}

/// `(kind, ext)` is how a file at `path` is classified given what sniffing
/// found; where the table decides and the extension is already lowercase
/// ASCII, it is reported as written.
pub open spec fn classified(
    sniffed: Option<(MediaKind, Seq<char>)>,
    path: Seq<char>,
    kind: MediaKind,
    ext: Seq<char>,
) -> bool {
    &&& (kind, ext) == classify_spec(sniffed, path)
    &&& uses_fallback(sniffed) && is_lowercase_ascii(raw_extension(path)) ==> ext == raw_extension(
        path,
    )
}

pub open spec fn sniffed_view(s: Option<Sniffed>) -> Option<(MediaKind, Seq<char>)> {
    match s {
        Some(s) => Some((s.kind, s.extension@)),
        None => None,
    }
}

/// Classifies a file from its sniffed format, falling back on the extension
/// table where sniffing failed or found only a placeholder extension.
pub fn classify(sniffed: Option<Sniffed>, path: &str) -> (r: (MediaKind, String))
    ensures
        classified(sniffed_view(sniffed), path@, r.0, r.1@),
{
    match sniffed {
        Some(s) => {
            if s.extension.as_str().unicode_len() > 0 && !str_eq(s.extension.as_str(), "bin") {
                return (s.kind, s.extension);
            }
        },
        None => {},
    }
    let ext = lowercase(extension(file_name(path)));
    let kind = kind_for_extension(ext.as_str());
    (kind, ext)
}

/// Classifies the file at `path` by its content, with the extension table as fallback.
pub fn classify_file(path: &str) -> (r: (MediaKind, String))
    ensures
        exists|s: Option<(MediaKind, Seq<char>)>| classified(s, path@, r.0, r.1@),
{
    let sniffed = sniff_file(path);
    let ghost sv = sniffed_view(sniffed);
    let r = classify(sniffed, path);
    assert(classified(sv, path@, r.0, r.1@));
    r
}

/// An unrecognised file is classified by the extension table alone: an
/// extension absent from the table gives `Other`, and a file named `*.mp3`
/// gives `Audio` with extension `mp3`.
pub proof fn lemma_classification_fallback(
    sniffed: Option<(MediaKind, Seq<char>)>,
    path: Seq<char>,
    kind: MediaKind,
    ext: Seq<char>,
)
    requires
        uses_fallback(sniffed),
        classified(sniffed, path, kind, ext),
    ensures
        kind == kind_for_extension_spec(ext),
        !is_video_extension(ext) && !is_image_extension(ext) && !is_audio_extension(ext) ==> kind
            == MediaKind::Other,
        raw_extension(path) == "mp3"@ ==> kind == MediaKind::Audio && ext == "mp3"@,
{
    if raw_extension(path) == "mp3"@ {
        reveal_strlit("mp3");
        reveal_strlit("mp4");
        reveal_strlit("m4v");
        reveal_strlit("mov");
        reveal_strlit("avi");
        reveal_strlit("mkv");
        reveal_strlit("webm");
        reveal_strlit("flv");
        reveal_strlit("jpg");
        reveal_strlit("jpeg");
        reveal_strlit("png");
        reveal_strlit("gif");
        reveal_strlit("bmp");
        reveal_strlit("webp");
        reveal_strlit("svg");
        assert(is_lowercase_ascii(raw_extension(path)));
        assert("mp3"@[2] != "mp4"@[2]);
        assert("mp3"@[1] != "m4v"@[1]);
        assert("mp3"@[1] != "mov"@[1]);
        assert("mp3"@[0] != "avi"@[0]);
        assert("mp3"@[1] != "mkv"@[1]);
        assert("mp3"@.len() != "webm"@.len());
        assert("mp3"@[0] != "flv"@[0]);
        assert("mp3"@[0] != "jpg"@[0]);
        assert("mp3"@.len() != "jpeg"@.len());
        assert("mp3"@[0] != "png"@[0]);
        assert("mp3"@[0] != "gif"@[0]);
        assert("mp3"@[0] != "bmp"@[0]);
        assert("mp3"@.len() != "webp"@.len());
        assert("mp3"@[0] != "svg"@[0]);
    }
}

} // verus!
