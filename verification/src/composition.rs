//! Window background composition decisions.
//!
//! The background appearance maps to an accent state of the compositor,
//! and the accent policy record is assembled from a packed colour.  The
//! undocumented native composition call itself, and the module lookup it
//! needs, stay with the caller; so does the version query whose answer
//! gates the whole feature.

use vstd::prelude::*;

verus! {

/// First build of the native compositor that accepts the composition
/// attribute used here.
pub const MIN_COMPOSITION_BUILD: u32 = 17763;

/// Accent state: composition disabled.
pub const ACCENT_DISABLED: u32 = 0;

/// Accent state: transparent gradient, used for a plain transparent
/// background.
pub const ACCENT_ENABLE_TRANSPARENTGRADIENT: u32 = 2;

/// Accent state: acrylic blur behind the window.
pub const ACCENT_ENABLE_ACRYLICBLURBEHIND: u32 = 4;

#[derive(Clone, Copy, Debug, PartialEq, Eq, Structural)]
pub enum WindowBackgroundAppearance {
    Opaque,
    Transparent,
    Blurred,
}

/// The accent policy handed to the native composition attribute call.
#[derive(Clone, Copy, Debug, PartialEq, Eq, Structural)]
pub struct AccentPolicy {
    pub accent_state: u32,
    pub accent_flags: u32,
    pub gradient_color: u32,
    pub animation_id: u32,
}

/// Whether the composition attribute may be set at all: the version query
/// must have succeeded and the build must be recent enough.  On older
/// builds the effect is silently skipped.
pub fn composition_supported(version_query_ok: bool, build_number: u32) -> (supported: bool)
    ensures
        supported == (version_query_ok && build_number >= MIN_COMPOSITION_BUILD),
{
    version_query_ok && build_number >= MIN_COMPOSITION_BUILD
}

/// The colour and accent state for a background appearance: opaque disables
/// composition, transparent uses the gradient accent with no colour, and
/// blurred enables acrylic behind a fully transparent black.
pub fn background_appearance_accent(appearance: WindowBackgroundAppearance) -> (accent: (
    Option<(u8, u8, u8, u8)>,
    u32,
))
    ensures
        appearance is Opaque ==> accent == (
            Option::<(u8, u8, u8, u8)>::None,
            ACCENT_DISABLED,
        ),
        appearance is Transparent ==> accent == (
            Option::<(u8, u8, u8, u8)>::None,
            ACCENT_ENABLE_TRANSPARENTGRADIENT,
        ),
        appearance is Blurred ==> accent == (
            Some((0u8, 0u8, 0u8, 0u8)),
            ACCENT_ENABLE_ACRYLICBLURBEHIND,
        ),
{
    match appearance {
        WindowBackgroundAppearance::Opaque => (None, ACCENT_DISABLED),
        WindowBackgroundAppearance::Transparent => (None, ACCENT_ENABLE_TRANSPARENTGRADIENT),
        WindowBackgroundAppearance::Blurred => (
            Some((0, 0, 0, 0)),
            ACCENT_ENABLE_ACRYLICBLURBEHIND,
        ),
    }
}

/// A colour packed for the accent policy: one byte per channel, red lowest.
pub open spec fn spec_gradient_color(color: (u8, u8, u8, u8)) -> int {
    color.0 + color.1 * 0x100 + color.2 * 0x1_0000 + color.3 * 0x100_0000
}

/// The accent policy for an accent state and an optional colour.  An
/// absent colour packs as zero; acrylic with a fully transparent alpha is
/// bumped to the least visible alpha, since the compositor treats zero
/// alpha as disabled; and the accent flags are set only for non-acrylic
/// states.
pub fn accent_policy_for(color: Option<(u8, u8, u8, u8)>, accent_state: u32) -> (policy:
    AccentPolicy)
    ensures
        ({
            let base = match color {
                Some(c) => c,
                None => (0u8, 0u8, 0u8, 0u8),
            };
            let is_acrylic = accent_state == ACCENT_ENABLE_ACRYLICBLURBEHIND;
            let alpha: u8 = if is_acrylic && base.3 == 0 {
                1u8
            } else {
                base.3
            };
            &&& policy.accent_state == accent_state
            &&& policy.accent_flags == (if is_acrylic {
                0u32
            } else {
                2u32
            })
            &&& policy.gradient_color == spec_gradient_color((base.0, base.1, base.2, alpha))
            &&& policy.animation_id == 0
        }),
{
    let base = match color {
        Some(c) => c,
        None => (0, 0, 0, 0),
    };
    let is_acrylic = accent_state == ACCENT_ENABLE_ACRYLICBLURBEHIND;
    let alpha: u8 = if is_acrylic && base.3 == 0 {
        1
    } else {
        base.3
    };
    let gradient_color: u32 = base.0 as u32 + base.1 as u32 * 0x100 + base.2 as u32 * 0x1_0000
        + alpha as u32 * 0x100_0000;
    AccentPolicy {
        accent_state,
        accent_flags: if is_acrylic {
            0
        } else {
            2
        },
        gradient_color,
        animation_id: 0,
    }
}

} // verus!
