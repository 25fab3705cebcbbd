//! What the host can capture from.

use vstd::prelude::*;
use vstd::string::*;

verus! {

/// Something that can be captured: a screen or a window.
#[derive(Debug)]
pub struct CaptureSource {
    pub id: String,
    pub name: String,
    pub source_type: String,
}

/// Whether `source` is the source with these fields.
pub open spec fn is_source(
    source: CaptureSource,
    id: Seq<char>,
    name: Seq<char>,
    source_type: Seq<char>,
) -> bool {
    &&& source.id@ == id
    &&& source.name@ == name
    &&& source.source_type@ == source_type
}

/// The sources the host offers: the primary display and the game window.
pub fn get_capture_sources() -> (sources: Vec<CaptureSource>)
    ensures
        sources.len() == 2,
        is_source(sources[0], "screen_1"@, "Primary Display"@, "screen"@),
        is_source(sources[1], "window_1"@, "Game Window"@, "window"@),
{
    let mut sources: Vec<CaptureSource> = Vec::new();
    sources.push(
        CaptureSource {
            id: String::from_str("screen_1"),
            name: String::from_str("Primary Display"),
            source_type: String::from_str("screen"),
        },
    );
    sources.push(
        CaptureSource {
            id: String::from_str("window_1"),
            name: String::from_str("Game Window"),
            source_type: String::from_str("window"),
        },
    );
    sources
}

} // verus!
