use vstd::prelude::*;

verus! {

/// Title, artist and total duration of a track. Reading tags and decoding
/// the container happen outside this crate; this type carries what was found,
/// with the fallback wording filled in by `metadata_from_tags`.
#[derive(Debug)]
pub struct AudioTrackMetaData {
    pub title: String,
    pub artist: String,
    /// Total duration in milliseconds, known only once the decoder reports
    /// it.
    pub duration: Option<u64>,
}

impl AudioTrackMetaData {
    /// An explicit copy whose contract says that every field is kept.
    pub fn duplicate(&self) -> (r: AudioTrackMetaData)
        ensures
            r == *self,
    {
        AudioTrackMetaData {
            title: self.title.clone(),
            artist: self.artist.clone(),
            duration: self.duration,
        }
    }
}

/// Builds the metadata of a track from whatever its tags offered: a missing
/// title or artist falls back to a fixed placeholder, and the duration stays
/// unknown until the decoder reports it.
pub fn metadata_from_tags(title: Option<String>, artist: Option<String>) -> (r: AudioTrackMetaData)
    ensures
        r.title@ == (match title {
            Some(t) => t@,
            None => "Unknown Title"@,
        }),
        r.artist@ == (match artist {
            Some(a) => a@,
            None => "Unknown Artist"@,
        }),
        r.duration is None,
{
    let t = match title {
        Some(t) => t,
        None => String::from_str("Unknown Title"),
    };
    let a = match artist {
        Some(a) => a,
        None => String::from_str("Unknown Artist"),
    };
    AudioTrackMetaData { title: t, artist: a, duration: None }
}

} // verus!
