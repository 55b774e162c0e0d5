//! A verified model of a pass-through pipeline element: one inbound and one
//! outbound connection point, a panic-safe dispatcher around every handler, a
//! lifecycle state machine, and an optional per-buffer analysis stage.
//!
//! The element receives buffers on its sink pad, optionally runs them through
//! the analysis stage, and pushes them on its source pad; events and queries
//! are relayed to the opposite side unchanged. The host runtime that delivers
//! these signals is modelled by the peer attached to each pad, which records
//! what it received and holds the verdicts it answers with.

use vstd::prelude::*;

pub mod detector;
pub mod dispatch;
pub mod element;
pub mod lifecycle;
pub mod pad;
pub mod registry;
pub mod signal;
pub mod ssdtf;
pub mod ssmbd;

use crate::registry::{Plugin, RegisterError};

verus! {

/// The descriptor the plugin publishes at load time.
#[derive(Clone, Copy, Debug)]
pub struct PluginDesc {
    pub name: &'static str,
    pub description: &'static str,
    pub version: &'static str,
    pub license: &'static str,
    pub source: &'static str,
    pub package: &'static str,
    pub origin: &'static str,
    pub release_date: &'static str,
}

/// The descriptor of this plugin: stable name, version and provenance, as
/// declared once at load time.
pub fn plugin_desc() -> (d: PluginDesc)
    ensures
        d.name@ == "ssmbd"@,
        d.description@ == "Single Shot Multi-box detector"@,
        d.version@ == "1.0"@,
        d.license@ == "MIT/X11"@,
{
    PluginDesc {
        name: "ssmbd",
        description: "Single Shot Multi-box detector",
        version: "1.0",
        license: "MIT/X11",
        source: "ssmbd",
        package: "ssmbd",
        origin: "https://github.com/mstallmo/gst-plugin-ssd",
        release_date: "2019-01-21",
    }
}

/// The plugin's load-time entry point: register every element type this
/// plugin provides on the host's plugin object. Succeeds exactly when the
/// detector element type is not registered yet; a failure leaves the plugin
/// unchanged.
pub fn plugin_init(plugin: &mut Plugin) -> (r: Result<(), RegisterError>)
    ensures
        (r is Ok <==> !old(plugin).has_kind(
            crate::registry::ElementKind::SingleShotMultiBox,
        )),
        r is Err ==> *final(plugin) == *old(plugin),
        r is Ok ==> {
            &&& final(plugin).registered@.len() == old(plugin).registered@.len() + 1
            &&& final(plugin).registered@.drop_last() == old(plugin).registered@
            &&& final(plugin).registered@.last().kind
                == crate::registry::ElementKind::SingleShotMultiBox
            &&& final(plugin).registered@.last().name@ == "ssmbd"@
        },
{
    match crate::ssmbd::register(plugin) {
        Ok(u) => Ok(u),
        Err(e) => Err(e),
    }
}

} // verus!
