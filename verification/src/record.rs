use vstd::prelude::*;

verus! {

/// One row of the audio table: a stable, externally supplied identifier and
/// the upstream URL at which the audio bytes can currently be retrieved.
///
/// Rows are created and maintained outside the gateway; the gateway only
/// performs point reads and never validates the URL before dereferencing it —
/// a malformed value surfaces later as a fetch failure, not a lookup failure.
pub struct AudioRecord {
    pub id: String,
    pub audio_url: String,
}

impl AudioRecord {
    /// Maps one fetched row — its `id` and `audio` columns — to the domain
    /// entity.
    pub fn of_row(id: String, audio: String) -> (r: AudioRecord)
        ensures
            r.id@ == id@,
            r.audio_url@ == audio@,
    {
        AudioRecord { id, audio_url: audio }
    }
}

} // verus!
