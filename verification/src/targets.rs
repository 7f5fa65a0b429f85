//! Deriving the render-target set from the swap-chain images: one image view
//! and one framebuffer per image.
//!
//! The GPU performs the actual creations; their outcomes arrive here as
//! plain booleans, one per attempted object. Any single failure aborts the
//! whole batch, and everything already created in the batch is released
//! before the error is returned, so a failed batch leaks nothing.

use vstd::prelude::*;
use crate::errors::TargetError;
use crate::ledger::{Ledger, LedgerEntry, ResourceKind};

verus! {

/// Build `image_count` image views and framebuffers on the ledger.
/// `view_ok[i]` and `framebuffer_ok[i]` are the GPU's verdicts on the i-th
/// creation of each kind.
///
/// On success the returned handles are fresh consecutive ids: views first,
/// then framebuffers. On failure every entry created by this call is dead
/// again and entries that existed before are untouched.
#[verifier::loop_isolation(false)]
pub fn build_targets(
    ledger: &mut Ledger,
    image_count: usize,
    view_ok: &Vec<bool>,
    framebuffer_ok: &Vec<bool>,
) -> (r: Result<(Vec<usize>, Vec<usize>), TargetError>)
    requires
        view_ok@.len() == image_count,
        framebuffer_ok@.len() == image_count,
        old(ledger).entries@.len() + 2 * image_count <= usize::MAX,
    ensures
        (r is Ok) <==> (forall|i: int|
            0 <= i < image_count ==> view_ok@[i] && framebuffer_ok@[i]),
        r matches Ok((views, fbs)) ==> {
            let base = old(ledger).entries@.len() as int;
            &&& views@.len() == image_count
            &&& fbs@.len() == image_count
            &&& forall|i: int| 0 <= i < image_count ==> views@[i] == base + i
            &&& forall|i: int| 0 <= i < image_count ==> fbs@[i] == base + image_count + i
            &&& final(ledger).entries@.len() == base + 2 * image_count
            &&& forall|i: int|
                base <= i < base + image_count ==> final(ledger).entries@[i] == (LedgerEntry {
                    kind: ResourceKind::ImageView,
                    alive: true,
                })
            &&& forall|i: int|
                base + image_count <= i < base + 2 * image_count
                    ==> final(ledger).entries@[i] == (LedgerEntry {
                    kind: ResourceKind::Framebuffer,
                    alive: true,
                })
            &&& final(ledger).teardown@ == old(ledger).teardown@
        },
        r is Err ==> r == Err::<(Vec<usize>, Vec<usize>), TargetError>(
            TargetError::TargetCreationFailed,
        ),
        // no partial leak: nothing new stays live, nothing old is touched
        r is Err ==> forall|i: int|
            old(ledger).entries@.len() <= i < final(ledger).entries@.len()
                ==> !final(ledger).entries@[i].alive,
        forall|i: int|
            0 <= i < old(ledger).entries@.len() ==> final(ledger).entries@[i] == old(
                ledger,
            ).entries@[i],
{
    let ghost base = ledger.entries@.len() as int;
    let ghost orig = ledger.entries@;
    let mut views: Vec<usize> = Vec::new();
    let mut i: usize = 0;
    while i < image_count
        invariant
            view_ok@.len() == image_count,
            0 <= i <= image_count,
            base + 2 * image_count <= usize::MAX,
            views@.len() == i,
            ledger.entries@.len() == base + i,
            forall|k: int| 0 <= k < i ==> views@[k] == base + k,
            forall|k: int| 0 <= k < base ==> ledger.entries@[k] == orig[k],
            forall|k: int|
                base <= k < base + i ==> ledger.entries@[k] == (LedgerEntry {
                    kind: ResourceKind::ImageView,
                    alive: true,
                }),
            forall|k: int| 0 <= k < i ==> view_ok@[k],
            ledger.teardown@ == old(ledger).teardown@,
            orig == old(ledger).entries@,
        decreases image_count - i,
    {
        if !view_ok[i] {
            let mut j: usize = views.len();
            while j > 0
                invariant
                    0 <= j <= views@.len(),
                    views@.len() <= image_count,
                    ledger.entries@.len() == base + views@.len(),
                    forall|k: int| 0 <= k < views@.len() ==> views@[k] == base + k,
                    forall|k: int| 0 <= k < base ==> ledger.entries@[k] == orig[k],
                    forall|k: int|
                        base <= k < base + j ==> ledger.entries@[k] == (LedgerEntry {
                            kind: ResourceKind::ImageView,
                            alive: true,
                        }),
                    forall|k: int|
                        base + j <= k < ledger.entries@.len() ==> !ledger.entries@[k].alive,
                    orig == old(ledger).entries@,
                decreases j,
            {
                j = j - 1;
                ledger.release(views[j]);
            }
            return Err(TargetError::TargetCreationFailed);
        }
        let id = ledger.register(ResourceKind::ImageView);
        views.push(id);
        i = i + 1;
    }
    let mut fbs: Vec<usize> = Vec::new();
    let mut i: usize = 0;
    while i < image_count
        invariant
            view_ok@.len() == image_count,
            framebuffer_ok@.len() == image_count,
            0 <= i <= image_count,
            base + 2 * image_count <= usize::MAX,
            views@.len() == image_count,
            fbs@.len() == i,
            ledger.entries@.len() == base + image_count + i,
            forall|k: int| 0 <= k < image_count ==> views@[k] == base + k,
            forall|k: int| 0 <= k < i ==> fbs@[k] == base + image_count + k,
            forall|k: int| 0 <= k < base ==> ledger.entries@[k] == orig[k],
            forall|k: int|
                base <= k < base + image_count ==> ledger.entries@[k] == (LedgerEntry {
                    kind: ResourceKind::ImageView,
                    alive: true,
                }),
            forall|k: int|
                base + image_count <= k < base + image_count + i ==> ledger.entries@[k] == (
                LedgerEntry { kind: ResourceKind::Framebuffer, alive: true }),
            forall|k: int| 0 <= k < image_count ==> view_ok@[k],
            forall|k: int| 0 <= k < i ==> framebuffer_ok@[k],
            ledger.teardown@ == old(ledger).teardown@,
            orig == old(ledger).entries@,
        decreases image_count - i,
    {
        if !framebuffer_ok[i] {
            let mut j: usize = fbs.len();
            while j > 0
                invariant
                    0 <= j <= fbs@.len(),
                    fbs@.len() <= image_count,
                    views@.len() == image_count,
                    ledger.entries@.len() == base + image_count + fbs@.len(),
                    forall|k: int| 0 <= k < image_count ==> views@[k] == base + k,
                    forall|k: int| 0 <= k < fbs@.len() ==> fbs@[k] == base + image_count + k,
                    forall|k: int| 0 <= k < base ==> ledger.entries@[k] == orig[k],
                    forall|k: int|
                        base <= k < base + image_count ==> ledger.entries@[k] == (LedgerEntry {
                            kind: ResourceKind::ImageView,
                            alive: true,
                        }),
                    forall|k: int|
                        base + image_count <= k < base + image_count + j ==> ledger.entries@[k]
                            == (LedgerEntry { kind: ResourceKind::Framebuffer, alive: true }),
                    forall|k: int|
                        base + image_count + j <= k < ledger.entries@.len()
                            ==> !ledger.entries@[k].alive,
                    orig == old(ledger).entries@,
                decreases j,
            {
                j = j - 1;
                ledger.release(fbs[j]);
            }
            let mut j: usize = views.len();
            while j > 0
                invariant
                    0 <= j <= image_count,
                    views@.len() == image_count,
                    ledger.entries@.len() >= base + image_count,
                    forall|k: int| 0 <= k < image_count ==> views@[k] == base + k,
                    forall|k: int| 0 <= k < base ==> ledger.entries@[k] == orig[k],
                    forall|k: int|
                        base <= k < base + j ==> ledger.entries@[k] == (LedgerEntry {
                            kind: ResourceKind::ImageView,
                            alive: true,
                        }),
                    forall|k: int|
                        base + j <= k < ledger.entries@.len() ==> !ledger.entries@[k].alive,
                    orig == old(ledger).entries@,
                decreases j,
            {
                j = j - 1;
                ledger.release(views[j]);
            }
            return Err(TargetError::TargetCreationFailed);
        }
        let id = ledger.register(ResourceKind::Framebuffer);
        fbs.push(id);
        i = i + 1;
    }
    Ok((views, fbs))
}

} // verus!
