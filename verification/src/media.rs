//! Plain data about loaded media: the error raised when a media file
//! cannot be opened, and the segments a track analysis yields.

use vstd::prelude::*;

verus! {

/// Why a media file could not be loaded.
pub enum MultimediaFileLoadingError {
    InvalidFile { path: String, why: String },
}

impl MultimediaFileLoadingError {
    /// The human-readable account of the failure.
    pub fn message(&self) -> (r: String)
        ensures
            match self {
                MultimediaFileLoadingError::InvalidFile { path, why } => r@ == "Couldn't open "@
                    + path@ + ": "@ + why@,
            },
    {
        match self {
            MultimediaFileLoadingError::InvalidFile { path, why } => {
                let mut s = String::from_str("Couldn't open ");
                s.append(path.as_str());
                s.append(": ");
                s.append(why.as_str());
                s
            },
        }
    }
}

/// What the track panel asks its caller to do next.
pub enum TrackPanelResult {
    Nothing,
    OpenFile,
    Analyze,
}

/// One segment found in an audio track.
pub struct TrackSegment {
    pub title: String,
    pub start_sample: u64,
    pub length: u64,
    pub start_offset: u64,
    pub end_offset: u64,
}

} // verus!
