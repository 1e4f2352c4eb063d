//! Capability dropping: strip all ambient kernel privilege before handing
//! control onward.
//!
//! The mutable sets are cleared in a fixed order — Effective, then
//! Permitted, then Inheritable — because a capability generally cannot be
//! removed from Permitted while it is still held Effective.  The current
//! sets are read first, for diagnostics only.

use vstd::prelude::*;

use crate::SandboxError;

verus! {

/// A process's capability state: the four kernel capability sets, each a set
/// of capability tokens.
pub struct CapModel {
    pub effective: Set<int>,
    pub permitted: Set<int>,
    pub inheritable: Set<int>,
    pub ambient: Set<int>,
}

/// Clearing Effective is always possible.
pub open spec fn clear_effective(c: CapModel) -> CapModel {
    CapModel { effective: Set::empty(), ..c }
}

/// Permitted can only be cleared once no capability is still Effective.
pub open spec fn can_clear_permitted(c: CapModel) -> bool {
    c.effective.is_empty()
}

pub open spec fn clear_permitted(c: CapModel) -> CapModel {
    CapModel { permitted: Set::empty(), ..c }
}

pub open spec fn clear_inheritable(c: CapModel) -> CapModel {
    CapModel { inheritable: Set::empty(), ..c }
}

/// The fixed clearing order — Effective, then Permitted, then Inheritable —
/// is admissible from any starting privilege level, and afterwards all three
/// mutable sets are empty.
pub proof fn lemma_drop_order_empties_all(c: CapModel)
    ensures
        can_clear_permitted(clear_effective(c)),
        clear_inheritable(clear_permitted(clear_effective(c))).effective.is_empty(),
        clear_inheritable(clear_permitted(clear_effective(c))).permitted.is_empty(),
        clear_inheritable(clear_permitted(clear_effective(c))).inheritable.is_empty(),
{
}

/// Clearing Permitted first is not admissible while some capability is still
/// Effective: the fixed order is not an arbitrary choice.
pub proof fn lemma_permitted_first_inadmissible(c: CapModel)
    requires
        !c.effective.is_empty(),
    ensures
        !can_clear_permitted(c),
{
}

/// One of the kernel capability sets this component touches.
#[derive(Debug, Clone, Copy, PartialEq, Eq, Structural)]
pub enum CapSetKind {
    Effective,
    Permitted,
    Inheritable,
    Ambient,
}

/// Declares the outside capability-token type so snapshots can carry it; a
/// value of it is opaque to the verifier.
#[verifier::external_type_specification]
#[verifier::external_body]
pub struct ExCapability(caps::Capability);

/// Relies on caps::read (capget(2)): the current content of one capability
/// set of this thread, as a list of tokens.  What it holds depends on the
/// process's starting privilege, so nothing more is stated.
#[verifier::external_body]
fn cap_read(kind: CapSetKind) -> (r: Result<Vec<caps::Capability>, ()>) {
    let set = match kind {
        CapSetKind::Effective => caps::CapSet::Effective,
        CapSetKind::Permitted => caps::CapSet::Permitted,
        CapSetKind::Inheritable => caps::CapSet::Inheritable,
        CapSetKind::Ambient => caps::CapSet::Ambient,
    };
    caps::read(None, set).map(|s| s.into_iter().collect()).map_err(|_| ())
}

/// Relies on caps::clear (capset(2)): clear all capabilities from one
/// capability set of this thread.
#[verifier::external_body]
fn cap_clear(kind: CapSetKind) -> (r: Result<(), ()>) {
    let set = match kind {
        CapSetKind::Effective => caps::CapSet::Effective,
        CapSetKind::Permitted => caps::CapSet::Permitted,
        CapSetKind::Inheritable => caps::CapSet::Inheritable,
        CapSetKind::Ambient => caps::CapSet::Ambient,
    };
    caps::clear(None, set).map_err(|_| ())
}

/// The capability sets as they were before dropping, kept for diagnostics.
pub struct CapSnapshot {
    pub effective: Vec<caps::Capability>,
    pub permitted: Vec<caps::Capability>,
    pub inheritable: Vec<caps::Capability>,
    pub ambient: Vec<caps::Capability>,
}

/// Read the four capability sets for diagnostics, then clear Effective,
/// Permitted and Inheritable, in that order.  Afterwards the process holds
/// no ambient privilege; any read or clear failure is fatal to the launch.
pub fn setcap_proc() -> (r: Result<CapSnapshot, SandboxError>)
    ensures
        r is Err ==> r->Err_0 == SandboxError::Privilege,
{
    let effective = match cap_read(CapSetKind::Effective) {
        Ok(v) => v,
        Err(_) => {
            return Err(SandboxError::Privilege);
        },
    };
    let permitted = match cap_read(CapSetKind::Permitted) {
        Ok(v) => v,
        Err(_) => {
            return Err(SandboxError::Privilege);
        },
    };
    let inheritable = match cap_read(CapSetKind::Inheritable) {
        Ok(v) => v,
        Err(_) => {
            return Err(SandboxError::Privilege);
        },
    };
    let ambient = match cap_read(CapSetKind::Ambient) {
        Ok(v) => v,
        Err(_) => {
            return Err(SandboxError::Privilege);
        },
    };
    if cap_clear(CapSetKind::Effective).is_err() {
        return Err(SandboxError::Privilege);
    }
    if cap_clear(CapSetKind::Permitted).is_err() {
        return Err(SandboxError::Privilege);
    }
    if cap_clear(CapSetKind::Inheritable).is_err() {
        return Err(SandboxError::Privilege);
    }
    Ok(CapSnapshot { effective, permitted, inheritable, ambient })
}

} // verus!
