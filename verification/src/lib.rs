//! Verified core of the ZundaLink installer: configuration lookup,
//! interface translations, USB device selection, disk formatting plans,
//! download planning and the installer's screen flow.
use vstd::prelude::*;

pub mod text;
pub mod i18n;
pub mod config;
pub mod usb;
pub mod format;
pub mod download;
pub mod flow;
pub mod render;

verus! {

} // verus!
