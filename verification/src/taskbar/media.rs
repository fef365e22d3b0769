//! What the taskbar is told of the media player, and the picture slots in
//! which it keeps the album art.

use crate::mpris::art::ArtUpdate;
use crate::mpris::types::{MprisData, SnapshotModel};
use crate::text::str_eq;
use vstd::prelude::*;

verus! {

/// One update of the media display.
#[derive(Clone, Debug)]
pub struct MediaUpdate {
    /// Whether a player is there at all.
    pub has_media: bool,
    /// The player's state.
    pub data: MprisData,
    /// Path of the resized album art; empty where it is not made yet.
    pub album_art_path: String,
    /// Path of the blurred album art; empty where it is not made yet.
    pub blurred_art_path: String,
    /// The track changed: the pictures shown so far are to be dropped.
    pub is_track_change: bool,
}

/// Mathematical model of a `MediaUpdate`.
pub ghost struct MediaModel {
    pub has_media: bool,
    pub data: SnapshotModel,
    pub album_art_path: Seq<char>,
    pub blurred_art_path: Seq<char>,
    pub is_track_change: bool,
}

impl View for MediaUpdate {
    type V = MediaModel;

    open spec fn view(&self) -> MediaModel {
        MediaModel {
            has_media: self.has_media,
            data: self.data@,
            album_art_path: self.album_art_path@,
            blurred_art_path: self.blurred_art_path@,
            is_track_change: self.is_track_change,
        }
    }
}

impl Default for MediaUpdate {
    fn default() -> (update: Self)
        ensures
            update@ == (MediaModel {
                has_media: false,
                data: SnapshotModel::empty(),
                album_art_path: Seq::empty(),
                blurred_art_path: Seq::empty(),
                is_track_change: false,
            }),
    {
        MediaUpdate {
            has_media: false,
            data: MprisData::default(),
            album_art_path: String::new(),
            blurred_art_path: String::new(),
            is_track_change: false,
        }
    }
}

impl MediaUpdate {
    /// The update that goes out at once with a snapshot: the player's state
    /// with the thumbnails that are cached at that moment.
    pub fn immediate(data: MprisData, art: ArtUpdate) -> (update: Self)
        ensures
            update@ == (MediaModel {
                has_media: true,
                data: data@,
                album_art_path: art@.art_path,
                blurred_art_path: art@.blur_path,
                is_track_change: art@.is_track_change,
            }),
    {
        MediaUpdate {
            has_media: true,
            data,
            album_art_path: art.art_path,
            blurred_art_path: art.blur_path,
            is_track_change: art.is_track_change,
        }
    }

    /// The update that follows once the thumbnails are made.
    pub fn with_art(data: MprisData, art_path: String, blur_path: String) -> (update: Self)
        ensures
            update@ == (MediaModel {
                has_media: true,
                data: data@,
                album_art_path: art_path@,
                blurred_art_path: blur_path@,
                is_track_change: false,
            }),
    {
        MediaUpdate {
            has_media: true,
            data,
            album_art_path: art_path,
            blurred_art_path: blur_path,
            is_track_change: false,
        }
    }
}

/// What to do with a picture slot.
#[derive(Clone, Copy, Debug, PartialEq, Eq, Structural)]
pub enum SlotAction {
    /// Empty the slot and show nothing.
    Clear,
    /// Show what the slot holds.
    Keep,
    /// Load the picture at the path of the update; keep what the slot holds
    /// if that fails.
    Load,
}

/// What an update asks of a slot that holds the picture at `cached_path`:
/// without media the slot is cleared; an update without a path, or with the
/// path of the picture that is held, keeps it; any other path is loaded.
pub open spec fn slot_action(has_media: bool, path: Seq<char>, cached_path: Seq<char>)
    -> SlotAction {
    if !has_media {
        SlotAction::Clear
    } else if path.len() == 0 || path == cached_path {
        SlotAction::Keep
    } else {
        SlotAction::Load
    }
}

/// Decides what to do with a picture slot.
pub fn get_or_keep_cached_image(path: &str, cached_path: &str, has_media: bool) -> (action:
    SlotAction)
    ensures
        action == slot_action(has_media, path@, cached_path@),
{
    if !has_media {
        return SlotAction::Clear;
    }
    if path.unicode_len() == 0 {
        return SlotAction::Keep;
    }
    if str_eq(cached_path, path) {
        return SlotAction::Keep;
    }
    SlotAction::Load
}

} // verus!
