use vstd::prelude::*;

verus! {

/// Why audio samples could not be played.
#[derive(Debug, Clone, PartialEq, Eq)]
pub enum AudioError {
    Playback { msg: String },
}

} // verus!
