//! Identifiers and error values for the asset layer. The library itself
//! never touches assets; entity constructors only report which asset a
//! descriptor referred to when the surrounding loader finds it missing.

use vstd::prelude::*;

verus! {

/// Identifier of a visual asset.
#[derive(Debug, Clone, Copy, PartialEq, Eq, Structural, Hash, PartialOrd, Ord)]
pub enum AssetId {
    Background,
    Logo,
    Pump,
    Mine,
    Gem,
    Flag,
    Check,
    Other(u32),
}

/// Failure of resource resolution: the only failure mode of the entity
/// layer itself.
#[derive(Debug)]
pub enum ResourceError {
    /// An entity descriptor referred to a sprite that the cache lacks.
    NoSprite { id: AssetId },
    /// An audio sample was requested that the cache lacks.
    NoAudioSample { id: () },
    /// The graphics backend refused a resource operation.
    GfxResource { msg: String },
}

/// Capability interface for audio playback; the playback backend is a stub
/// with no operations yet.
pub trait AudioManage {

}

/// The default (no-op) audio backend.
pub struct AudioManager {}

impl AudioManager {
    /// Creates the no-op audio backend; it has nothing to acquire, so this
    /// always succeeds.
    pub fn new(params: ()) -> (r: Result<AudioManager, ResourceError>)
        ensures
            r matches Ok(_),
    {
        let _ = params;
        Ok(AudioManager {  })
    }
}

impl AudioManage for AudioManager {

}

} // verus!
