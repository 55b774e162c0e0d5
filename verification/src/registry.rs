//! Plugin registration: the host runtime's plugin object, modelled as the
//! ordered list of element types registered on it.

use vstd::prelude::*;
use crate::element::ElementClass;

verus! {

/// The element types this plugin provides.
#[derive(Clone, Copy, Debug, PartialEq, Eq, Structural)]
pub enum ElementKind {
    SsdTf,
    SingleShotMultiBox,
}

/// One registered element type: its kind, the stable name it registers
/// under, its rank, and its class data.
#[derive(Debug)]
pub struct Registration {
    pub kind: ElementKind,
    pub name: &'static str,
    pub rank: u32,
    pub class: ElementClass,
}

/// The host runtime's plugin object: the element types registered so far, in
/// registration order.
#[derive(Debug)]
pub struct Plugin {
    pub registered: Vec<Registration>,
}

/// Failure of a registration request.
#[derive(Clone, Copy, Debug, PartialEq, Eq, Structural)]
pub enum RegisterError {
    AlreadyRegistered,
}

impl Plugin {
    /// Whether an element type of the given kind is already registered.
    pub open spec fn has_kind(self, kind: ElementKind) -> bool {
        exists|i: int| 0 <= i < self.registered@.len() && self.registered@[i].kind == kind
    }

    /// A plugin with nothing registered yet.
    pub fn new() -> (p: Plugin)
        ensures
            p.registered@ == Seq::<Registration>::empty(),
    {
        Plugin { registered: Vec::new() }
    }

    /// Register one element type under a stable name and rank. Succeeds
    /// exactly when no element type of the same kind is registered yet; a
    /// failure leaves the plugin unchanged.
    pub fn register_element(
        &mut self,
        kind: ElementKind,
        name: &'static str,
        rank: u32,
        class: ElementClass,
    ) -> (r: Result<(), RegisterError>)
        ensures
            (r is Ok <==> !old(self).has_kind(kind)),
            r is Err ==> *final(self) == *old(self),
            r is Ok ==> {
                &&& final(self).registered@.len() == old(self).registered@.len() + 1
                &&& final(self).registered@.drop_last() == old(self).registered@
                &&& final(self).registered@.last().kind == kind
                &&& final(self).registered@.last().name == name
                &&& final(self).registered@.last().rank == rank
                &&& final(self).registered@.last().class == class
            },
    {
        let mut i: usize = 0;
        while i < self.registered.len()
            invariant
                0 <= i <= self.registered@.len(),
                forall|j: int| 0 <= j < i ==> self.registered@[j].kind != kind,
            decreases self.registered@.len() - i,
        {
            if self.registered[i].kind == kind {
                return Err(RegisterError::AlreadyRegistered);
            }
            i += 1;
        }
        self.registered.push(Registration { kind, name, rank, class });
        proof {
            assert(self.registered@.drop_last() =~= old(self).registered@);
        }
        Ok(())
    }
}

} // verus!
