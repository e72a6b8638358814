//! The reaction to changes in the corpus directory.

use vstd::prelude::*;
use crate::exam::{SimuladoListView, SimuladoView};
use crate::store::SimuladoStore;

verus! {

/// The kind of a filesystem event seen in the corpus directory.
#[derive(Debug, Clone, Copy, PartialEq, Eq, Structural)]
pub enum FsEventKind {
    Access,
    Create,
    Modify,
    Remove,
    Other,
}

/// Whether an event of this kind invalidates the caches.
pub open spec fn invalidates(kind: FsEventKind) -> bool {
    kind is Create || kind is Modify || kind is Remove
}

/// Whether an event of this kind invalidates the caches.
pub fn triggers_invalidation(kind: FsEventKind) -> (r: bool)
    ensures
        r == invalidates(kind),
{
    match kind {
        FsEventKind::Create | FsEventKind::Modify | FsEventKind::Remove => true,
        _ => false,
    }
}

/// Handles one filesystem event: on a create, modify or remove the local
/// tier is cleared, and the result says that the distributed tier's list
/// entry is to be deleted next; other events change nothing. Exam entries of
/// the distributed tier are not deleted: a changed exam is served from there
/// until its entry expires.
pub fn on_fs_event(store: &mut SimuladoStore, kind: FsEventKind) -> (invalidate_list: bool)
    requires
        old(store).wf(),
    ensures
        final(store).wf(),
        invalidate_list == invalidates(kind),
        invalidate_list ==> {
            &&& final(store).dir() == old(store).dir()
            &&& final(store).cached_exams() == Map::<Seq<char>, SimuladoView>::empty()
            &&& final(store).cached_list() == Seq::<SimuladoListView>::empty()
        },
        !invalidate_list ==> *final(store) == *old(store),
{
    if triggers_invalidation(kind) {
        store.invalidate_cache();
        true
    } else {
        false
    }
}

} // verus!
