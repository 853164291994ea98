//! The window-chrome material and appearance choices.

use vstd::prelude::*;
use crate::text::str_eq;

verus! {

/// The visual-effect material asked of the native window, one variant per
/// accepted material name.
#[derive(Debug, Clone, Copy, PartialEq, Eq, Structural)]
pub enum VibrancyMaterial {
    Dark,
    Light,
    AppearanceBased,
    Titlebar,
    Selection,
    Menu,
    Popover,
    Sidebar,
    MediumLight,
    UltraDark,
    HudWindow,
}

/// The material each name denotes; an unknown name falls back to `Dark`.
pub open spec fn material_of_name(name: Seq<char>) -> VibrancyMaterial {
    if name == "dark"@ {
        VibrancyMaterial::Dark
    } else if name == "light"@ {
        VibrancyMaterial::Light
    } else if name == "appearance_based"@ {
        VibrancyMaterial::AppearanceBased
    } else if name == "titlebar"@ {
        VibrancyMaterial::Titlebar
    } else if name == "selection"@ {
        VibrancyMaterial::Selection
    } else if name == "menu"@ {
        VibrancyMaterial::Menu
    } else if name == "popover"@ {
        VibrancyMaterial::Popover
    } else if name == "sidebar"@ {
        VibrancyMaterial::Sidebar
    } else if name == "medium_light"@ {
        VibrancyMaterial::MediumLight
    } else if name == "ultra_dark"@ {
        VibrancyMaterial::UltraDark
    } else if name == "hud_window"@ {
        VibrancyMaterial::HudWindow
    } else {
        VibrancyMaterial::Dark
    }
}

/// Maps a material name from the RPC boundary to the material to apply.
pub fn material_from_name(name: &str) -> (r: VibrancyMaterial)
    ensures
        r == material_of_name(name@),
{
    if str_eq(name, "dark") {
        VibrancyMaterial::Dark
    } else if str_eq(name, "light") {
        VibrancyMaterial::Light
    } else if str_eq(name, "appearance_based") {
        VibrancyMaterial::AppearanceBased
    } else if str_eq(name, "titlebar") {
        VibrancyMaterial::Titlebar
    } else if str_eq(name, "selection") {
        VibrancyMaterial::Selection
    } else if str_eq(name, "menu") {
        VibrancyMaterial::Menu
    } else if str_eq(name, "popover") {
        VibrancyMaterial::Popover
    } else if str_eq(name, "sidebar") {
        VibrancyMaterial::Sidebar
    } else if str_eq(name, "medium_light") {
        VibrancyMaterial::MediumLight
    } else if str_eq(name, "ultra_dark") {
        VibrancyMaterial::UltraDark
    } else if str_eq(name, "hud_window") {
        VibrancyMaterial::HudWindow
    } else {
        VibrancyMaterial::Dark
    }
}

/// How the vibrancy flow answers, given what the native steps reported: a
/// missing main window is the fixed refusal; with a window, a failed clear
/// is answered first, then a failed apply, and only a clean run is the
/// fixed success string.
pub fn vibrancy_outcome(
    window_found: bool,
    clear_error: Option<String>,
    apply_error: Option<String>,
) -> (r: Result<String, String>)
    ensures
        !window_found ==> (r matches Err(m) && m@ == "Window not found"@),
        window_found ==> (clear_error matches Some(e) ==> (r matches Err(m) && m@
            == "Failed to clear vibrancy: "@ + e@)),
        window_found && clear_error is None ==> (apply_error matches Some(e) ==> (r matches Err(
            m,
        ) && m@ == "Failed to apply vibrancy: "@ + e@)),
        window_found && clear_error is None && apply_error is None ==> (r matches Ok(m) && m@
            == "OK set vibrancy"@),
{
    if !window_found {
        return Err(String::from_str("Window not found"));
    }
    match clear_error {
        Some(e) => Err(String::from_str("Failed to clear vibrancy: ").concat(e.as_str())),
        None => match apply_error {
            Some(e) => Err(String::from_str("Failed to apply vibrancy: ").concat(e.as_str())),
            None => Ok(String::from_str("OK set vibrancy")),
        },
    }
}

/// The native appearance name each appearance choice denotes; anything but
/// `light` is the dark appearance.
pub open spec fn appearance_value_of(name: Seq<char>) -> Seq<char> {
    if name == "light"@ {
        "aqua"@
    } else {
        "darkAqua"@
    }
}

/// Maps an appearance choice from the RPC boundary to the native
/// appearance name.
pub fn appearance_value(name: &str) -> (r: &'static str)
    ensures
        r@ == appearance_value_of(name@),
{
    if str_eq(name, "light") {
        "aqua"
    } else {
        "darkAqua"
    }
}

/// How the appearance flow answers: a missing main window is the fixed
/// refusal, a window without a native handle the fixed handle error, and
/// anything else the fixed success string.
pub fn appearance_outcome(window_found: bool, have_window_handle: bool) -> (r: Result<
    String,
    String,
>)
    ensures
        !window_found ==> (r matches Err(m) && m@ == "Window not found"@),
        window_found && !have_window_handle ==> (r matches Err(m) && m@
            == "Failed to get window handle"@),
        window_found && have_window_handle ==> (r matches Ok(m) && m@ == "OK set appearance"@),
{
    if !window_found {
        Err(String::from_str("Window not found"))
    } else if have_window_handle {
        Ok(String::from_str("OK set appearance"))
    } else {
        Err(String::from_str("Failed to get window handle"))
    }
}

} // verus!
