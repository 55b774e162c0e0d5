//! The detector-carrying element type: registered under the name "ssmbd",
//! its instances run every buffer through the analysis stage before pushing
//! it downstream.

use vstd::prelude::*;
use crate::detector::StageMode;
use crate::element::{ElementClass, Metadata};
use crate::pad::Direction;
use crate::registry::{ElementKind, Plugin, RegisterError};

verus! {

/// Register the `SingleShotMultiBox` element type on the plugin under the
/// stable name "ssmbd" at rank 0. Its class declares the two always-present
/// any-caps pad templates, and its instances carry a pass-through analysis
/// stage. Succeeds exactly when the type is not registered yet; a failure
/// leaves the plugin unchanged.
pub fn register(plugin: &mut Plugin) -> (r: Result<(), RegisterError>)
    ensures
        (r is Ok <==> !old(plugin).has_kind(ElementKind::SingleShotMultiBox)),
        r is Err ==> *final(plugin) == *old(plugin),
        r is Ok ==> {
            &&& final(plugin).registered@.len() == old(plugin).registered@.len() + 1
            &&& final(plugin).registered@.drop_last() == old(plugin).registered@
            &&& final(plugin).registered@.last().kind == ElementKind::SingleShotMultiBox
            &&& final(plugin).registered@.last().name@ == "ssmbd"@
            &&& final(plugin).registered@.last().rank == 0
            &&& final(plugin).registered@.last().class.stage_mode == Some(
                StageMode::PassThrough,
            )
            &&& final(plugin).registered@.last().class.has_template(Direction::Sink)
            &&& final(plugin).registered@.last().class.has_template(Direction::Src)
        },
{
    let class = ElementClass::class_init(
        Metadata {
            long_name: "SingleShotMultiBox",
            classification: "Generic",
            description: "Does nothing with the data",
            author: "Mason Stallmo <masonstallmo@gmail.com>",
        },
        Some(StageMode::PassThrough),
    );
    plugin.register_element(ElementKind::SingleShotMultiBox, "ssmbd", 0, class)
}

} // verus!
