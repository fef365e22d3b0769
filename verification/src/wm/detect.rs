//! Detection of the window manager from what the environment says.

use crate::text::{chars_of, contains_chars, contains_text, lowercase, to_lowercase};
use crate::wm::types::WmType;
use vstd::prelude::*;

verus! {

/// The window manager that the name of the current desktop speaks of, if it
/// speaks of one: the name is taken in lower case, and the first of
/// "hyprland", "sway" and "niri" that stands in it decides.
pub open spec fn wm_of_desktop(desktop: Seq<char>) -> Option<WmType> {
    let lower = lowercase(desktop);
    if contains_text(lower, "hyprland"@) {
        Some(WmType::Hyprland)
    } else if contains_text(lower, "sway"@) {
        Some(WmType::Sway)
    } else if contains_text(lower, "niri"@) {
        Some(WmType::Niri)
    } else {
        None
    }
}

/// The window manager that the environment tells of. The name of the
/// current desktop decides where it names one; else the instance signature
/// of Hyprland, then the socket of Sway; else the window manager is unknown.
pub open spec fn detected_wm(
    desktop: Option<Seq<char>>,
    has_hyprland_signature: bool,
    has_sway_socket: bool,
) -> WmType {
    let named = match desktop {
        Some(name) => wm_of_desktop(name),
        None => None,
    };
    match named {
        Some(wm) => wm,
        None => if has_hyprland_signature {
            WmType::Hyprland
        } else if has_sway_socket {
            WmType::Sway
        } else {
            WmType::Unknown
        },
    }
}

/// The window manager that the name of the current desktop speaks of.
pub fn wm_from_desktop(desktop: &str) -> (wm: Option<WmType>)
    ensures
        wm == wm_of_desktop(desktop@),
{
    let lower_text = to_lowercase(desktop);
    let lower = chars_of(lower_text.as_str());
    let hyprland = chars_of("hyprland");
    let sway = chars_of("sway");
    let niri = chars_of("niri");
    if contains_chars(lower.as_slice(), hyprland.as_slice()) {
        Some(WmType::Hyprland)
    } else if contains_chars(lower.as_slice(), sway.as_slice()) {
        Some(WmType::Sway)
    } else if contains_chars(lower.as_slice(), niri.as_slice()) {
        Some(WmType::Niri)
    } else {
        None
    }
}

/// Detects the window manager from the value of the variable that names the
/// current desktop (`None` where it is not set) and from whether the
/// variables of Hyprland's instance signature and of Sway's socket are set.
pub fn detect_wm(desktop: Option<&str>, has_hyprland_signature: bool, has_sway_socket: bool) -> (wm:
    WmType)
    ensures
        wm == detected_wm(
            match desktop {
                Some(name) => Some(name@),
                None => None,
            },
            has_hyprland_signature,
            has_sway_socket,
        ),
{
    let named = match desktop {
        Some(name) => wm_from_desktop(name),
        None => None,
    };
    match named {
        Some(wm) => wm,
        None => {
            if has_hyprland_signature {
                WmType::Hyprland
            } else if has_sway_socket {
                WmType::Sway
            } else {
                WmType::Unknown
            }
        },
    }
}

} // verus!
