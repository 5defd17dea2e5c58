//! The choice between hardware and software rendering at start-up.
use vstd::prelude::*;

use crate::text::str_eq;

verus! {

/// Hardware acceleration is used on Windows when OpenGL is present and the
/// session is neither a virtual machine nor a remote desktop.
pub fn is_hardware_acceleration_available(
    on_windows: bool,
    opengl_loaded: bool,
    in_vm_or_remote: bool,
) -> (r: bool)
    ensures
        r == (!on_windows || (opengl_loaded && !in_vm_or_remote)),
{
    if !on_windows {
        return true;
    }
    opengl_loaded && !in_vm_or_remote
}

/// A session counts as a virtual machine or remote desktop when Windows
/// reports a remote session, or when one of the telltale environment
/// variables (`VIRTUAL_ENV`, `VMWARE_PLAYER`, `VBOX_MSI_INSTALL_PATH`,
/// `QEMU`) is set.
pub fn is_vm_or_remote(remote_session: bool, indicators_set: &[bool]) -> (r: bool)
    ensures
        r == (remote_session || exists|i: int| 0 <= i < indicators_set@.len() && indicators_set@[i]),
{
    if remote_session {
        return true;
    }
    let mut i: usize = 0;
    while i < indicators_set.len()
        invariant
            i <= indicators_set@.len(),
            forall|j: int| 0 <= j < i ==> !indicators_set@[j],
        decreases indicators_set.len() - i,
    {
        if indicators_set[i] {
            return true;
        }
        i += 1;
    }
    false
}

/// The renderer, by priority: the one named by `ZUNDALINK_RENDERER` when
/// set; otherwise `hardware` (accelerated OpenGL) when acceleration is
/// available; otherwise `software`.
pub fn detect_renderer(user_choice: Option<String>, hardware_available: bool) -> (r: String)
    ensures
        match user_choice {
            Some(u) => r == u,
            None => r@ == if hardware_available {
                "hardware"@
            } else {
                "software"@
            },
        },
{
    match user_choice {
        Some(u) => u,
        None => {
            if hardware_available {
                String::from_str("hardware")
            } else {
                String::from_str("software")
            }
        },
    }
}

/// Whether the renderer is the software one (which needs the Mesa
/// software-rendering settings).
pub fn is_software_renderer(renderer: &str) -> (r: bool)
    ensures
        r == (renderer@ == "software"@),
{
    str_eq(renderer, "software")
}

/// The tag the window title carries for the renderer.
pub fn renderer_label(renderer: &str) -> (r: &'static str)
    ensures
        r@ == if renderer@ == "software"@ {
            "[Software]"@
        } else {
            "[Hardware]"@
        },
{
    if str_eq(renderer, "software") {
        "[Software]"
    } else {
        "[Hardware]"
    }
}

/// The window title: `ZundaLink Installer <version> <renderer tag>`.
pub fn window_title(version: &str, renderer: &str) -> (r: String)
    ensures
        r@ == "ZundaLink Installer "@ + version@ + " "@ + renderer_label_spec(renderer@),
{
    let mut t = String::from_str("ZundaLink Installer ");
    t.append(version);
    t.append(" ");
    t.append(renderer_label(renderer));
    t
}

/// The tag the window title carries for the renderer.
pub open spec fn renderer_label_spec(renderer: Seq<char>) -> Seq<char> {
    if renderer == "software"@ {
        "[Software]"@
    } else {
        "[Hardware]"@
    }
}

} // verus!
