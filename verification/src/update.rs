//! The update orchestrator's decisions: which catalog entry an update
//! request names, and whether the device's firmware satisfies the
//! minimum version the chosen binary demands.
//!
//! The orchestrator's byte moving (reading a file, downloading the
//! manifest and the binary, driving the transfer connection) stays with
//! the caller; everything it decides is here.

use crate::manifest::{spec_get, FirmwareBinary, Manifest, ResolveError, Selector};
use crate::version::{spec_parse_version, Version};
use vstd::prelude::*;

verus! {

/// Options of the firmware-update command.
#[derive(Debug)]
pub struct UpdateOptions {
    /// Update using a local firmware file.
    pub file: Option<String>,
    /// Update to a specific version.
    pub version: Option<String>,
}

/// The catalog key an update request asks for: the explicitly named
/// version when one is given, else the stable pointer.
pub open spec fn spec_requested_key(m: Manifest, version: Option<String>) -> Seq<char> {
    match version {
        Some(v) => v@,
        None => m.stable@,
    }
}

/// Resolves an update request against the catalog: the explicitly
/// requested version, or the stable release when none is named. The
/// failure names the missing key, so a dangling stable pointer and a
/// mistyped version read differently.
pub fn resolve_update<'a>(manifest: &'a Manifest, version: &Option<String>) -> (r: Result<
    (&'a String, &'a FirmwareBinary),
    ResolveError,
>)
    ensures
        match r {
            Ok((key, b)) => key@ == spec_requested_key(*manifest, *version) && spec_get(
                manifest.entries(),
                key@,
            ) == Some(*b),
            Err(e) => e matches ResolveError::NotFound(k) && k@ == spec_requested_key(
                *manifest,
                *version,
            ) && spec_get(manifest.entries(), k@) is None,
        },
{
    let sel = match version {
        Some(v) => Selector::Version(v.clone()),
        None => Selector::Stable,
    };
    manifest.resolve(&sel)
}

/// True when a device running `current` may take a binary that demands
/// at least `minimum`: the update is transferred only if the device's
/// firmware already meets the binary's minimum-supported version.
pub fn minimum_satisfied(current: &Version, minimum: &Version) -> (r: bool)
    ensures
        r == current.spec_at_least(*minimum),
{
    current.at_least(minimum)
}

/// Refusal of an update before any byte is transferred, from the
/// minimum-supported-version constraint of the chosen binary.
#[derive(Debug, Clone, Copy, PartialEq, Eq, Structural)]
pub enum VersionGateError {
    /// The device's firmware is older than the binary's minimum.
    Unmet { current: Version, minimum: Version },
    /// The binary's minimum-version text names no version; nothing can
    /// be promised of the step, so the update is refused.
    Unreadable,
}

/// Gates an update on the chosen binary's minimum-supported version:
/// the device's current firmware must already meet it, else the run
/// is refused here, before any transfer. A constraint that cannot be
/// read refuses the update too.
pub fn check_minimum_version(current: &Version, minimum_text: &str) -> (r: Result<
    (),
    VersionGateError,
>)
    ensures
        match spec_parse_version(minimum_text@) {
            Some(minimum) => if current.spec_at_least(minimum) {
                r is Ok
            } else {
                r == Err::<(), VersionGateError>(VersionGateError::Unmet { current: *current, minimum })
            },
            None => r == Err::<(), VersionGateError>(VersionGateError::Unreadable),
        },
{
    match Version::parse(minimum_text) {
        Some(minimum) => {
            if current.at_least(&minimum) {
                Ok(())
            } else {
                Err(VersionGateError::Unmet { current: *current, minimum })
            }
        },
        None => Err(VersionGateError::Unreadable),
    }
}

} // verus!
