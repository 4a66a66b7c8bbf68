//! The live output-surface configuration.
//!
//! The configuration's size is always clamped to at least 1×1, even when
//! the host reports a zero dimension for a minimized window, so the
//! surface is never configured with an empty extent. Format and present
//! mode are identifiers into the capability lists reported at startup;
//! the platform handle they configure is owned by the surrounding
//! program.

use vstd::prelude::*;

verus! {

/// The configuration applied to the output surface.
#[derive(Clone, Copy, PartialEq, Eq, Structural, Debug)]
pub struct SurfaceConfig {
    /// Surface width in pixels; always at least 1.
    pub width: u32,
    /// Surface height in pixels; always at least 1.
    pub height: u32,
    /// Identifier of the chosen texture format within the capability
    /// list reported at startup.
    pub format: u32,
    /// Identifier of the chosen present mode within the capability list
    /// reported at startup.
    pub present_mode: u32,
}

impl SurfaceConfig {
    /// Both dimensions are clamped away from zero.
    pub open spec fn well_formed(self) -> bool {
        self.width >= 1 && self.height >= 1
    }
}

/// Startup failure: the platform reported no capability to select from.
#[derive(Clone, Copy, PartialEq, Eq, Structural, Debug)]
pub enum SurfaceInitError {
    /// The capability report listed no texture format.
    NoFormat,
    /// The capability report listed no present mode.
    NoPresentMode,
}

/// A host-reported dimension clamped away from zero.
pub open spec fn clamped(reported: u32) -> u32 {
    if reported >= 1 {
        reported
    } else {
        1
    }
}

/// Owns the stored surface configuration and keeps it well formed across
/// resizes.
#[derive(Debug)]
pub struct SurfaceManager {
    /// The configuration currently applied to the surface.
    pub config: SurfaceConfig,
}

impl SurfaceManager {
    /// The configuration stored after a resize to the reported size, with
    /// each dimension clamped away from zero and format and present mode
    /// untouched.
    pub open spec fn reconfigured(self, width: u32, height: u32) -> SurfaceConfig {
        SurfaceConfig { width: clamped(width), height: clamped(height), ..self.config }
    }

    /// Select a configuration from the capability lists reported by the
    /// platform: the first listed format and present mode, and the
    /// requested size clamped away from zero. Fails exactly when a
    /// capability list is empty, which means no compatible configuration
    /// exists.
    pub fn initialize(
        formats: &Vec<u32>,
        present_modes: &Vec<u32>,
        width: u32,
        height: u32,
    ) -> (r: Result<SurfaceManager, SurfaceInitError>)
        ensures
            formats.len() == 0 ==> r == Result::<SurfaceManager, SurfaceInitError>::Err(
                SurfaceInitError::NoFormat,
            ),
            formats.len() > 0 && present_modes.len() == 0 ==> r == Result::<
                SurfaceManager,
                SurfaceInitError,
            >::Err(SurfaceInitError::NoPresentMode),
            formats.len() > 0 && present_modes.len() > 0 ==> (r matches Ok(m) && m.config == (
            SurfaceConfig {
                width: clamped(width),
                height: clamped(height),
                format: formats[0],
                present_mode: present_modes[0],
            })),
            r matches Ok(m) ==> m.config.well_formed(),
    {
        if formats.len() == 0 {
            return Err(SurfaceInitError::NoFormat);
        }
        if present_modes.len() == 0 {
            return Err(SurfaceInitError::NoPresentMode);
        }
        let width = if width >= 1 { width } else { 1 };
        let height = if height >= 1 { height } else { 1 };
        Ok(SurfaceManager {
            config: SurfaceConfig {
                width,
                height,
                format: formats[0],
                present_mode: present_modes[0],
            },
        })
    }

    /// Store the configuration for the reported size, clamping each
    /// dimension away from zero. Reports whether the stored configuration
    /// changed, so a caller can see that repeating a resize with the same
    /// size stores the same configuration and changes nothing.
    pub fn reconfigure(&mut self, width: u32, height: u32) -> (changed: bool)
        ensures
            final(self).config == old(self).reconfigured(width, height),
            changed == (final(self).config != old(self).config),
            final(self).config.well_formed(),
    {
        let new_config = SurfaceConfig {
            width: if width >= 1 { width } else { 1 },
            height: if height >= 1 { height } else { 1 },
            ..self.config
        };
        let changed = !(new_config == self.config);
        self.config = new_config;
        changed
    }
}

/// A reported size of zero in either dimension is stored as the clamped
/// size 1, never 0: resizing to (0, 0) leaves a 1×1 configuration.
pub proof fn lemma_zero_size_clamped(m: SurfaceManager)
    ensures
        m.reconfigured(0, 0).width == 1,
        m.reconfigured(0, 0).height == 1,
        m.reconfigured(0, 0).well_formed(),
{
}

/// Reconfiguring is idempotent: repeating a resize with the same reported
/// size stores the same configuration, and the repeat reports no change,
/// so nothing is reapplied to the surface.
pub proof fn lemma_reconfigure_idempotent(m: SurfaceManager, width: u32, height: u32)
    ensures
        (SurfaceManager { config: m.reconfigured(width, height) }).reconfigured(width, height)
            == m.reconfigured(width, height),
{
}

} // verus!
