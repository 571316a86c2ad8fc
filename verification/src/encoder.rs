//! Encoder-side helpers: initialization, and the compute half of the
//! audio device probe (the caller lists the platform's devices; this
//! module decides whether the configured device is on the list).

use vstd::prelude::*;

use crate::config::{Platform, RecorderConfig};
use crate::error::RecorderError;
use crate::strutil::{spec_contains_sub, str_contains_sub};

verus! {

/// Prepares the external encoder. The encoder is an external process
/// found at run time, so there is nothing to set up in-process; this
/// always succeeds.
pub fn init_ffmpeg() -> (r: Result<(), RecorderError>)
    ensures
        r is Ok,
{
    Ok(())
}

/// The Unicode lowercasing of a string. `str::to_lowercase` maps equal
/// strings to equal strings on every machine, so its result can be named.
pub uninterp spec fn lower_of(s: Seq<char>) -> Seq<char>;

/// Relies on `str::to_lowercase`: returns the lowercase equivalent of the
/// string; the result depends on the characters alone.
#[verifier::external_body]
fn lowercase(s: &str) -> (r: String)
    ensures
        r@ == lower_of(s@),
{
    s.to_lowercase()
}

/// Whether a device listing mentions the device, compared
/// case-insensitively: the lowercased device name must occur in the
/// lowercased listing.
pub fn audio_device_listed(listing: &str, device: &str) -> (r: bool)
    ensures
        r == spec_contains_sub(lower_of(listing@), lower_of(device@)),
{
    let l = lowercase(listing);
    let d = lowercase(device);
    str_contains_sub(l.as_str(), d.as_str())
}

/// Whether skipping the audio stage deserves a warning: audio was
/// requested, the platform probes for the device, and the probe found
/// none. The builders omit the audio stages in exactly this case, and the
/// caller emits one warning for it.
pub fn should_warn_missing_audio(c: &RecorderConfig, platform: Platform, audio_present: bool) -> (r:
    bool)
    ensures
        r == (c.audio_enabled && platform == Platform::Windows && !audio_present),
{
    c.audio_enabled && matches!(platform, Platform::Windows) && !audio_present
}

} // verus!
