//! The clips the host has recorded.

use vstd::prelude::*;
use vstd::string::*;

verus! {

/// A recorded clip.
#[derive(Debug)]
pub struct Clip {
    pub id: String,
    pub title: String,
    pub game: Option<String>,
    /// Length in seconds.
    pub duration: u64,
    pub file_path: String,
    pub thumbnail: Option<String>,
    pub created_at: String,
}

/// The text that `string` holds, if there is a string.
pub open spec fn text_of(string: Option<String>) -> Option<Seq<char>> {
    match string {
        Some(s) => Some(s@),
        None => None,
    }
}

/// Whether `clip` is the sample clip, under the id `id`.
pub open spec fn is_sample_clip(clip: Clip, id: Seq<char>) -> bool {
    &&& clip.id@ == id
    &&& clip.title@ == "Epic Victory"@
    &&& text_of(clip.game) == Some("Valorant"@)
    &&& clip.duration == 30
    &&& clip.file_path@ == "/clips/clip_1.mp4"@
    &&& text_of(clip.thumbnail) == Some("/clips/clip_1_thumb.jpg"@)
    &&& clip.created_at@ == "2024-01-01T00:00:00Z"@
}

/// The clip with id `clip_id`. Every id gets the sample clip for now.
pub fn get_clip(clip_id: String) -> (clip: Clip)
    ensures
        is_sample_clip(clip, clip_id@),
{
    Clip {
        id: clip_id,
        title: String::from_str("Epic Victory"),
        game: Some(String::from_str("Valorant")),
        duration: 30,
        file_path: String::from_str("/clips/clip_1.mp4"),
        thumbnail: Some(String::from_str("/clips/clip_1_thumb.jpg")),
        created_at: String::from_str("2024-01-01T00:00:00Z"),
    }
}

/// All clips: the sample clip, as `clip_1`.
pub fn list_clips() -> (clips: Vec<Clip>)
    ensures
        clips.len() == 1,
        is_sample_clip(clips[0], "clip_1"@),
{
    let mut clips: Vec<Clip> = Vec::new();
    clips.push(get_clip(String::from_str("clip_1")));
    clips
}

} // verus!
