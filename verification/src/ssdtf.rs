//! The plain pass-through element type: registered under the name "ssdtf",
//! its instances forward every buffer unchanged — no analysis stage is
//! configured.

use vstd::prelude::*;
use crate::element::{ElementClass, Metadata};
use crate::pad::Direction;
use crate::registry::{ElementKind, Plugin, RegisterError};

verus! {

/// Register the `SsdTf` element type on the plugin under the stable name
/// "ssdtf" at rank 0. Its class declares the two always-present any-caps pad
/// templates, and its instances carry no analysis stage. Succeeds exactly
/// when the type is not registered yet; a failure leaves the plugin
/// unchanged.
pub fn register(plugin: &mut Plugin) -> (r: Result<(), RegisterError>)
    ensures
        (r is Ok <==> !old(plugin).has_kind(ElementKind::SsdTf)),
        r is Err ==> *final(plugin) == *old(plugin),
        r is Ok ==> {
            &&& final(plugin).registered@.len() == old(plugin).registered@.len() + 1
            &&& final(plugin).registered@.drop_last() == old(plugin).registered@
            &&& final(plugin).registered@.last().kind == ElementKind::SsdTf
            &&& final(plugin).registered@.last().name@ == "ssdtf"@
            &&& final(plugin).registered@.last().rank == 0
            &&& final(plugin).registered@.last().class.stage_mode is None
            &&& final(plugin).registered@.last().class.has_template(Direction::Sink)
            &&& final(plugin).registered@.last().class.has_template(Direction::Src)
        },
{
    let class = ElementClass::class_init(
        Metadata {
            long_name: "SsdTf",
            classification: "Generic",
            description: "Does nothing with the data",
            author: "Sebastian Droege <sebastian@centricular.com>",
        },
        None,
    );
    plugin.register_element(ElementKind::SsdTf, "ssdtf", 0, class)
}

} // verus!
