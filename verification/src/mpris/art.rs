//! Album art of the current track: where its thumbnails are cached, where
//! the picture comes from, and when it has to be processed anew.

use crate::text::{chars_of, copy_range, has_prefix, starts_with, str_eq, string_of};
use sha2::Digest;
use vstd::prelude::*;
use vstd::string::*;
use vstd::utf8::encode_utf8;

verus! {

/// The SHA-256 digest of a byte string.
pub uninterp spec fn sha256(data: Seq<u8>) -> Seq<u8>;

/// `Sha256::digest` of sha2: the SHA-256 digest of `data`.
#[verifier::external_body]
fn sha256_digest(data: &[u8]) -> (digest: Vec<u8>)
    ensures
        digest@ == sha256(data@),
{
    sha2::Sha256::digest(data).to_vec()
}

/// The sixteen digits of lower-case hexadecimal notation.
pub open spec fn hex_digits() -> Seq<char> {
    "0123456789abcdef"@
}

/// Lower-case hexadecimal notation of a byte string: two digits for each
/// byte, the high half first.
pub open spec fn hex_lower(data: Seq<u8>) -> Seq<char>
    decreases data.len(),
{
    if data.len() == 0 {
        Seq::empty()
    } else {
        hex_lower(data.drop_last()).push(hex_digits()[data.last() as int / 16]).push(
            hex_digits()[data.last() as int % 16],
        )
    }
}

/// `hex::encode` of hex: each byte of `data` as two lower-case hexadecimal
/// digits, the high half first.
#[verifier::external_body]
fn hex_encode(data: &[u8]) -> (text: String)
    ensures
        text@ == hex_lower(data@),
{
    hex::encode(data)
}

/// The key under which the thumbnails of a picture are cached: the
/// hexadecimal SHA-256 digest of its address.
pub open spec fn art_key(url: Seq<char>) -> Seq<char> {
    hex_lower(sha256(encode_utf8(url)))
}

/// The file names of the two cached thumbnails of the picture at `url`: the
/// resized one and the blurred one.
pub fn art_cache_names(url: &str) -> (names: (String, String))
    ensures
        names.0@ == art_key(url@) + ".png"@,
        names.1@ == art_key(url@) + "_blur.png"@,
{
    let digest = sha256_digest(url.as_bytes());
    let mut plain = hex_encode(digest.as_slice());
    let mut blurred = plain.clone();
    plain.append(".png");
    blurred.append("_blur.png");
    (plain, blurred)
}

/// Where a picture comes from.
#[derive(Clone, Debug)]
pub enum ArtSource {
    /// A local file at this path.
    File(String),
    /// An address to download from.
    Remote,
    /// An address of a kind that is not fetched.
    Unsupported,
}

/// The scheme prefix of a local file's address.
pub open spec fn file_scheme() -> Seq<char> {
    "file://"@
}

/// Whether an address is one to download from.
pub open spec fn is_remote(url: Seq<char>) -> bool {
    !starts_with(url, file_scheme()) && starts_with(url, "http"@)
}

/// The path of the local file that an address names, if it names one.
pub open spec fn local_path(url: Seq<char>) -> Option<Seq<char>> {
    if starts_with(url, file_scheme()) {
        Some(url.skip(file_scheme().len() as int))
    } else {
        None
    }
}

/// Tells where the picture at `url` comes from.
pub fn classify_art_url(url: &str) -> (source: ArtSource)
    ensures
        match source {
            ArtSource::File(path) => local_path(url@) == Some(path@),
            ArtSource::Remote => is_remote(url@),
            ArtSource::Unsupported => local_path(url@) is None && !is_remote(url@),
        },
{
    let chars = chars_of(url);
    let file = chars_of("file://");
    let http = chars_of("http");
    if has_prefix(chars.as_slice(), file.as_slice()) {
        let path = copy_range(chars.as_slice(), file.len(), chars.len());
        assert(path@ == url@.skip(file_scheme().len() as int));
        ArtSource::File(string_of(path.as_slice()))
    } else if has_prefix(chars.as_slice(), http.as_slice()) {
        ArtSource::Remote
    } else {
        ArtSource::Unsupported
    }
}

/// What the art of the last snapshots was: the address of the picture, the
/// paths of its cached thumbnails (empty until they are made), and a counter
/// of snapshots by which the result of an outdated processing is recognised.
#[derive(Clone, Debug)]
pub struct ArtTracker {
    pub last_art_url: String,
    pub cached_art: String,
    pub cached_blur: String,
    pub generation: u64,
}

/// Mathematical model of an `ArtTracker`.
pub ghost struct ArtTrackerModel {
    pub last_art_url: Seq<char>,
    pub cached_art: Seq<char>,
    pub cached_blur: Seq<char>,
    pub generation: u64,
}

impl View for ArtTracker {
    type V = ArtTrackerModel;

    open spec fn view(&self) -> ArtTrackerModel {
        ArtTrackerModel {
            last_art_url: self.last_art_url@,
            cached_art: self.cached_art@,
            cached_blur: self.cached_blur@,
            generation: self.generation,
        }
    }
}

/// What goes out with a snapshot.
#[derive(Clone, Debug)]
pub struct ArtUpdate {
    /// The picture's address differs from that of the snapshot before.
    pub is_track_change: bool,
    /// Path of the resized thumbnail, empty while there is none.
    pub art_path: String,
    /// Path of the blurred thumbnail, empty while there is none.
    pub blur_path: String,
    /// The picture has to be fetched and processed.
    pub process: bool,
    /// The counter's value that the processing belongs to.
    pub generation: u64,
}

/// Mathematical model of an `ArtUpdate`.
pub ghost struct ArtUpdateModel {
    pub is_track_change: bool,
    pub art_path: Seq<char>,
    pub blur_path: Seq<char>,
    pub process: bool,
    pub generation: u64,
}

impl View for ArtUpdate {
    type V = ArtUpdateModel;

    open spec fn view(&self) -> ArtUpdateModel {
        ArtUpdateModel {
            is_track_change: self.is_track_change,
            art_path: self.art_path@,
            blur_path: self.blur_path@,
            process: self.process,
            generation: self.generation,
        }
    }
}

/// The counter after one more snapshot; it wraps around.
pub open spec fn next_generation(generation: u64) -> u64 {
    if generation == u64::MAX {
        0
    } else {
        (generation + 1) as u64
    }
}

/// The tracker after a snapshot whose picture is at `art_url`. A new address
/// is a track change and empties the cached paths.
pub open spec fn tracker_after_update(tracker: ArtTrackerModel, art_url: Seq<char>)
    -> ArtTrackerModel {
    if tracker.last_art_url != art_url {
        ArtTrackerModel {
            last_art_url: art_url,
            cached_art: Seq::empty(),
            cached_blur: Seq::empty(),
            generation: next_generation(tracker.generation),
        }
    } else {
        ArtTrackerModel { generation: next_generation(tracker.generation), ..tracker }
    }
}

/// What goes out with that snapshot: the cached paths as they then are, and
/// the order to process the picture if it has an address and either the track
/// changed or no thumbnail is cached.
pub open spec fn update_of(tracker: ArtTrackerModel, art_url: Seq<char>) -> ArtUpdateModel {
    let after = tracker_after_update(tracker, art_url);
    let changed = tracker.last_art_url != art_url;
    ArtUpdateModel {
        is_track_change: changed,
        art_path: after.cached_art,
        blur_path: after.cached_blur,
        process: art_url.len() > 0 && (changed || after.cached_art.len() == 0),
        generation: after.generation,
    }
}

impl ArtTracker {
    /// The tracker before any snapshot.
    pub fn new() -> (tracker: Self)
        ensures
            tracker@ == (ArtTrackerModel {
                last_art_url: Seq::empty(),
                cached_art: Seq::empty(),
                cached_blur: Seq::empty(),
                generation: 0,
            }),
    {
        ArtTracker {
            last_art_url: String::new(),
            cached_art: String::new(),
            cached_blur: String::new(),
            generation: 0,
        }
    }

    /// Takes note of a snapshot whose picture is at `art_url`.
    pub fn on_update(&mut self, art_url: &str) -> (update: ArtUpdate)
        ensures
            final(self)@ == tracker_after_update(old(self)@, art_url@),
            update@ == update_of(old(self)@, art_url@),
    {
        let changed = !str_eq(self.last_art_url.as_str(), art_url);
        self.generation = self.generation.wrapping_add(1);
        if changed {
            let chars = chars_of(art_url);
            self.last_art_url = string_of(chars.as_slice());
            self.cached_art = String::new();
            self.cached_blur = String::new();
        }
        let has_url = art_url.unicode_len() > 0;
        let no_cache = self.cached_art.as_str().unicode_len() == 0;
        ArtUpdate {
            is_track_change: changed,
            art_path: self.cached_art.clone(),
            blur_path: self.cached_blur.clone(),
            process: has_url && (changed || no_cache),
            generation: self.generation,
        }
    }

    /// Whether no snapshot came since the one counted as `generation`.
    pub fn is_current(&self, generation: u64) -> (current: bool)
        ensures
            current == (generation == self@.generation),
    {
        self.generation == generation
    }

    /// Takes the thumbnails that the processing ordered at `generation`
    /// made. They are cached, and `true` is returned, if no snapshot came
    /// since; otherwise nothing changes.
    pub fn on_processed(&mut self, generation: u64, art_path: String, blur_path: String) -> (fresh:
        bool)
        ensures
            fresh == (generation == old(self)@.generation),
            fresh ==> final(self)@ == (ArtTrackerModel {
                cached_art: art_path@,
                cached_blur: blur_path@,
                ..old(self)@
            }),
            !fresh ==> final(self)@ == old(self)@,
    {
        if self.generation != generation {
            return false;
        }
        self.cached_art = art_path;
        self.cached_blur = blur_path;
        true
    }

    /// Counts the end of the client as one more snapshot, so that what is
    /// still being processed is outdated.
    pub fn reset(&mut self)
        ensures
            final(self)@ == (ArtTrackerModel {
                generation: next_generation(old(self)@.generation),
                ..old(self)@
            }),
    {
        self.generation = self.generation.wrapping_add(1);
    }
}

} // verus!
