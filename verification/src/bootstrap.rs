//! Device bootstrap: selecting the first adapter that exposes a queue family
//! capable of both graphics and presentation to the surface.
//!
//! Enumeration is the GPU instance's job; what it reports arrives here as
//! plain per-family capability flags.

use vstd::prelude::*;
use crate::errors::SetupError;

verus! {

/// What one queue family reports about itself.
#[derive(Clone, Copy, Debug, PartialEq, Eq, Structural)]
pub struct QueueFamilyInfo {
    pub supports_graphics: bool,
    pub supports_presentation: bool,
}

/// One enumerated adapter: its queue families, in the order reported.
pub struct AdapterInfo {
    pub queue_families: Vec<QueueFamilyInfo>,
}

/// A family that can both draw and present.
pub open spec fn family_suitable(f: QueueFamilyInfo) -> bool {
    f.supports_graphics && f.supports_presentation
}

/// An adapter with at least one suitable family.
pub open spec fn adapter_suitable(a: AdapterInfo) -> bool {
    exists|j: int| 0 <= j < a.queue_families@.len() && family_suitable(a.queue_families@[j])
}

/// The first suitable family of `families`, if any.
fn find_family(families: &Vec<QueueFamilyInfo>) -> (r: Option<usize>)
    ensures
        r matches Some(j) ==> {
            &&& j < families@.len()
            &&& family_suitable(families@[j as int])
            &&& forall|k: int| 0 <= k < j ==> !family_suitable(families@[k])
        },
        r is None ==> forall|k: int|
            0 <= k < families@.len() ==> !family_suitable(families@[k]),
{
    let mut j: usize = 0;
    while j < families.len()
        invariant
            0 <= j <= families@.len(),
            forall|k: int| 0 <= k < j ==> !family_suitable(families@[k]),
        decreases families@.len() - j,
    {
        if families[j].supports_graphics && families[j].supports_presentation {
            return Some(j);
        }
        j = j + 1;
    }
    None
}

/// Select the first adapter exposing a queue family that supports both
/// graphics and presentation, together with that family's index.
/// Fails exactly when no adapter qualifies.
pub fn select_adapter(adapters: &Vec<AdapterInfo>) -> (r: Result<(usize, usize), SetupError>)
    ensures
        r matches Ok(sel) ==> {
            &&& sel.0 < adapters@.len()
            &&& sel.1 < adapters@[sel.0 as int].queue_families@.len()
            &&& family_suitable(adapters@[sel.0 as int].queue_families@[sel.1 as int])
            &&& forall|k: int|
                0 <= k < sel.1 ==> !family_suitable(adapters@[sel.0 as int].queue_families@[k])
            &&& forall|i: int| 0 <= i < sel.0 ==> !adapter_suitable(adapters@[i])
        },
        (r is Err) <==> (forall|i: int|
            0 <= i < adapters@.len() ==> !adapter_suitable(adapters@[i])),
        r is Err ==> r == Err::<(usize, usize), SetupError>(SetupError::NoSuitableAdapter),
{
    let mut i: usize = 0;
    while i < adapters.len()
        invariant
            0 <= i <= adapters@.len(),
            forall|k: int| 0 <= k < i ==> !adapter_suitable(adapters@[k]),
        decreases adapters@.len() - i,
    {
        match find_family(&adapters[i].queue_families) {
            Some(j) => {
                return Ok((i, j));
            },
            None => {
                proof {
                    assert(!adapter_suitable(adapters@[i as int]));
                }
            },
        }
        i = i + 1;
    }
    Err(SetupError::NoSuitableAdapter)
}

} // verus!
