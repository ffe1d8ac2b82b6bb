//! Properties of the icon bookkeeping that span several operations.
use vstd::prelude::*;
use vstd::arithmetic::div_mod::{lemma_fundamental_div_mod, lemma_fundamental_div_mod_converse};
use crate::model::{
    IconModel, IconId, PreviewEntry, well_formed, saved_of, applied_of, applied, save_choice, remove_owner, has_owner, is_top_owner,
    dock_consistent, remembered, previewed, restored, restore_target, cleared, persisted,
    file_icon_pending, file_icon_synced, next_token, token_after, lemma_token_after_value, lemma_remove_owner_push,
    lemma_remove_owner_gone, lemma_remove_absent_owner, lemma_remove_owner_distinct,
    lemma_preview_keeps_distinct, lemma_remove_owner_keeps_top,
};

verus! {

/// Every operation keeps a state well formed: the default id stays
/// non-empty and the preview stack keeps one entry at most per panel.
pub proof fn law_operations_keep_well_formed(m: IconModel, owner: u64, id: IconId)
    requires
        well_formed(m),
    ensures
        well_formed(previewed(m, owner, id)),
        well_formed(restored(m, owner)),
        well_formed(cleared(m, owner)),
        well_formed(persisted(m, id)),
        well_formed(remembered(m, id)),
        well_formed(file_icon_synced(m)),
{
    lemma_preview_keeps_distinct(m.stack, owner, id);
    lemma_remove_owner_distinct(m.stack, owner);
}

/// After a panel applies a preview, it drives the Dock: its entry is on
/// top and the Dock shows its icon.
pub proof fn law_preview_takes_the_dock(m: IconModel, owner: u64, id: IconId)
    ensures
        is_top_owner(previewed(m, owner, id).stack, owner),
        previewed(m, owner, id).stack.last().1 == id,
        previewed(m, owner, id).applied == id,
        !has_owner(remove_owner(m.stack, owner), owner),
{
    lemma_remove_owner_gone(m.stack, owner);
}

/// A preview and its release leave the stack as it was without the panel;
/// when the panel had no preview before and the Dock showed what the stack
/// and the saved icon say, releasing it undoes the preview entirely.
pub proof fn law_restore_undoes_preview(m: IconModel, owner: u64, id: IconId)
    ensures
        restored(previewed(m, owner, id), owner).stack == remove_owner(m.stack, owner),
        dock_consistent(m) && !has_owner(m.stack, owner) ==> restored(
            previewed(m, owner, id),
            owner,
        ) == m,
{
    let p = previewed(m, owner, id);
    let r = remove_owner(m.stack, owner);
    lemma_remove_owner_push(r, (owner, id), owner);
    lemma_remove_owner_gone(m.stack, owner);
    lemma_remove_absent_owner(r, owner);
    assert(remove_owner(p.stack, owner) == r);
    if dock_consistent(m) && !has_owner(m.stack, owner) {
        lemma_remove_absent_owner(m.stack, owner);
        assert(restored(p, owner) =~= m);
    }
}

/// Previews, their release and their clearing never change the saved icon,
/// the installed bundle's icon, the default or the token counter: the file
/// icon never follows an unsaved Dock preview.
pub proof fn law_previews_leave_saved_state(m: IconModel, owner: u64, id: IconId)
    ensures
        ({
            let p = previewed(m, owner, id);
            p.saved == m.saved && p.synced == m.synced && p.default_id == m.default_id
                && p.next_owner == m.next_owner
        }),
        ({
            let r = restored(m, owner);
            r.saved == m.saved && r.synced == m.synced && r.default_id == m.default_id
                && r.next_owner == m.next_owner
        }),
        ({
            let c = cleared(m, owner);
            c.saved == m.saved && c.synced == m.synced && c.default_id == m.default_id
                && c.next_owner == m.next_owner && c.applied == m.applied
        }),
        file_icon_synced(previewed(m, owner, id)).synced == saved_of(m),
        file_icon_pending(previewed(m, owner, id)) == file_icon_pending(m),
{
}

/// The Dock shows the newest live preview, or the saved icon when there is
/// none: previews, releases, loading a persisted icon, and clearing a panel
/// after its icon was saved all keep this so.
pub proof fn law_dock_shows_newest_preview_or_saved(m: IconModel, owner: u64, id: IconId)
    ensures
        dock_consistent(previewed(m, owner, id)),
        dock_consistent(m) ==> dock_consistent(restored(m, owner)),
        id.len() > 0 ==> dock_consistent(persisted(m, id)),
        dock_consistent(m) && !is_top_owner(m.stack, owner) ==> dock_consistent(
            cleared(m, owner),
        ),
        dock_consistent(m) && is_top_owner(m.stack, owner) && id == m.stack.last().1 && id.len()
            > 0 ==> dock_consistent(cleared(remembered(m, id), owner)),
{
    if dock_consistent(m) && !is_top_owner(m.stack, owner) && m.stack.len() > 0 {
        lemma_remove_owner_keeps_top(m.stack, owner);
    }
    if dock_consistent(m) && !is_top_owner(m.stack, owner) && m.stack.len() == 0 {
        assert(remove_owner(m.stack, owner) =~= m.stack);
    }
}

/// A release by a panel that is not driving the Dock leaves the Dock alone.
pub proof fn law_buried_release_keeps_dock(m: IconModel, owner: u64)
    requires
        !is_top_owner(m.stack, owner),
    ensures
        restore_target(m, owner) == None::<IconId>,
        restored(m, owner).applied == m.applied,
        m.stack.len() > 0 ==> restored(m, owner).stack.last() == m.stack.last(),
        m.stack.len() > 0 ==> cleared(m, owner).stack.last() == m.stack.last(),
{
    if m.stack.len() > 0 {
        lemma_remove_owner_keeps_top(m.stack, owner);
    }
}

/// Saving from the panel that drives the Dock leaves no buried previews:
/// a later release by any panel leaves the Dock where the save put it.
pub proof fn law_saving_top_preview_buries_nothing(m: IconModel, owner: u64, other: u64)
    requires
        is_top_owner(m.stack, owner),
    ensures
        cleared(m, owner).stack.len() == 0,
        restored(cleared(m, owner), other).applied == m.applied,
        restored(cleared(m, owner), other).stack.len() == 0,
{
}

/// Loading a persisted icon makes it the saved and the applied icon and
/// drops every preview.
pub proof fn law_persisted_icon_is_saved_and_shown(m: IconModel, id: IconId)
    requires
        id.len() > 0,
    ensures
        saved_of(persisted(m, id)) == id,
        persisted(m, id).applied == id,
        persisted(m, id).stack.len() == 0,
{
}

/// A saved icon reads back as written.
pub proof fn law_saved_reads_back(m: IconModel, id: IconId)
    requires
        id.len() > 0,
    ensures
        saved_of(remembered(m, id)) == id,
{
}

/// Once the bundle icon is synced, nothing is pending until the saved icon
/// changes; a second sync is a no-op.
pub proof fn law_sync_settles(m: IconModel)
    ensures
        !file_icon_pending(file_icon_synced(m)),
        file_icon_synced(file_icon_synced(m)) == file_icon_synced(m),
        file_icon_pending(m) ==> file_icon_synced(m) != m,
{
}

/// Two successive preview tokens differ.
pub proof fn law_successive_tokens_differ(n: u64)
    ensures
        next_token(n) != n,
        n < u64::MAX ==> next_token(n) == n + 1,
{
}

/// Preview tokens are pairwise distinct: of any 2^64 successive calls of
/// `new_preview_owner`, no two hand out the same token.
pub proof fn law_tokens_pairwise_distinct(start: u64, i: nat, j: nat)
    requires
        i < j,
        j - i < 0x1_0000_0000_0000_0000,
    ensures
        token_after(start, i) != token_after(start, j),
{
    let m: int = 0x1_0000_0000_0000_0000;
    lemma_token_after_value(start, i);
    lemma_token_after_value(start, j);
    let a: int = start + i;
    let b: int = start + j;
    lemma_fundamental_div_mod(a, m);
    lemma_fundamental_div_mod(b, m);
    if a % m == b % m {
        let k: int = b / m - a / m;
        assert(b - a == m * k);
        assert(false);
    }
}

/// From a fresh state, the tokens of the first `u64::MAX` calls are
/// 1, 2, 3, ..., so each is at least 1.
pub proof fn law_fresh_tokens_count_from_one(calls: nat)
    requires
        calls < u64::MAX,
    ensures
        token_after(1, calls) == calls + 1,
        token_after(1, calls) >= 1,
{
    lemma_token_after_value(1, calls);
    lemma_fundamental_div_mod_converse((1 + calls) as int, 0x1_0000_0000_0000_0000int, 0int, (1 + calls) as int);
}

/// The preview entries that do not belong to `owner`.
pub open spec fn not_owned_by(owner: u64) -> spec_fn(PreviewEntry) -> bool {
    |e: PreviewEntry| e.0 != owner
}

/// What a slot holding `id` reads as: `id`, or the default while it is empty.
pub open spec fn reading(id: IconId, default_id: IconId) -> IconId {
    if id.len() == 0 {
        default_id
    } else {
        id
    }
}

/// `owner`'s entry is the newest one of `stack`.
pub open spec fn newest_is(stack: Seq<PreviewEntry>, owner: u64) -> bool {
    stack.len() > 0 && stack.last().0 == owner
}

/// Dropping an owner from the preview stack keeps every other entry, in
/// order, and nothing else.
pub proof fn law_dropping_an_owner_keeps_the_others(stack: Seq<PreviewEntry>, owner: u64)
    ensures
        remove_owner(stack, owner) == stack.filter(not_owned_by(owner)),
    decreases stack.len(),
{
    reveal_with_fuel(Seq::<PreviewEntry>::filter, 1);
    if stack.len() > 0 {
        law_dropping_an_owner_keeps_the_others(stack.drop_last(), owner);
    }
}

/// The saved and applied slots read as their ids, or as the default while
/// they are empty.
pub proof fn law_slots_read_as_recorded(m: IconModel)
    ensures
        saved_of(m) == reading(m.saved, m.default_id),
        applied_of(m) == reading(m.applied, m.default_id),
        m.saved.len() > 0 ==> saved_of(m) == m.saved,
        m.applied.len() > 0 ==> applied_of(m) == m.applied,
{
}

/// A panel's own choice wins on save whenever it differs from its
/// snapshot, or it has no snapshot, whatever the choice is (the default
/// icon included); only an unchanged panel writes the saved icon.
pub proof fn law_changed_panel_wins_on_save(m: IconModel, panel: IconId, snapshot: Option<IconId>)
    ensures
        snapshot != Some(panel) ==> save_choice(m, panel, snapshot) == panel,
        snapshot == Some(panel) ==> save_choice(m, panel, snapshot) == reading(
            m.saved,
            m.default_id,
        ),
        save_choice(m, panel, None) == panel,
{
}

/// A bundle write is pending exactly when the recorded bundle icon differs
/// from what the saved slot reads as, whatever the recorded icon is (the
/// default included); a successful write records that reading and nothing else.
pub proof fn law_write_pending_exactly_when_stale(m: IconModel)
    ensures
        file_icon_pending(m) == (m.synced != reading(m.saved, m.default_id)),
        file_icon_synced(m) == (IconModel { synced: reading(m.saved, m.default_id), ..m }),
{
}

/// Loading a persisted icon makes it the saved and the applied icon, drops
/// every preview, and leaves the record of the bundle's icon, the default
/// and the token counter alone: the bundle still has to be written when it
/// does not hold that icon yet.
pub proof fn law_persisting_keeps_the_bundle_record(m: IconModel, id: IconId)
    ensures
        persisted(m, id) == (IconModel { saved: id, applied: id, stack: Seq::empty(), ..m }),
        persisted(m, id).synced == m.synced,
        id.len() > 0 ==> file_icon_pending(persisted(m, id)) == (m.synced != id),
{
}

/// Recording a saved icon changes the saved slot only; applying an icon
/// changes the applied slot only.
pub proof fn law_recording_touches_one_slot(m: IconModel, id: IconId)
    ensures
        remembered(m, id) == (IconModel { saved: id, ..m }),
        applied(m, id) == (IconModel { applied: id, ..m }),
{
}

/// A preview shows its icon and puts the panel's single entry on top of
/// every other panel's entry, kept in order; nothing else changes.
pub proof fn law_preview_goes_on_top_of_the_others(m: IconModel, owner: u64, id: IconId)
    ensures
        previewed(m, owner, id) == (IconModel {
            applied: id,
            stack: m.stack.filter(not_owned_by(owner)).push((owner, id)),
            ..m
        }),
{
    law_dropping_an_owner_keeps_the_others(m.stack, owner);
}

/// A release drops exactly the releasing panel's entries and keeps every
/// other entry in order, top or not. When that panel drove the Dock, the
/// newest remaining preview is shown, or the saved icon when none remains;
/// otherwise the Dock is left alone. Nothing else changes.
pub proof fn law_release_drops_only_the_releasing_panel(m: IconModel, owner: u64)
    ensures
        restored(m, owner).stack == m.stack.filter(not_owned_by(owner)),
        restore_target(m, owner) == (if newest_is(m.stack, owner) {
            Some(
                if m.stack.filter(not_owned_by(owner)).len() > 0 {
                    m.stack.filter(not_owned_by(owner)).last().1
                } else {
                    reading(m.saved, m.default_id)
                },
            )
        } else {
            None
        }),
        restored(m, owner) == (IconModel {
            applied: match restore_target(m, owner) {
                Some(id) => id,
                None => m.applied,
            },
            stack: m.stack.filter(not_owned_by(owner)),
            ..m
        }),
{
    law_dropping_an_owner_keeps_the_others(m.stack, owner);
}

/// Clearing after a save drops every preview when the panel drove the
/// Dock; otherwise it drops exactly that panel's entries and keeps every
/// other entry in order. The Dock and everything else are left alone.
pub proof fn law_clearing_drops_only_what_the_save_committed(m: IconModel, owner: u64)
    ensures
        cleared(m, owner) == (IconModel {
            stack: if newest_is(m.stack, owner) {
                Seq::empty()
            } else {
                m.stack.filter(not_owned_by(owner))
            },
            ..m
        }),
        !newest_is(m.stack, owner) ==> cleared(m, owner).stack == remove_owner(m.stack, owner),
{
    law_dropping_an_owner_keeps_the_others(m.stack, owner);
}

/// Each token is the previous one plus one, modulo 2^64.
pub proof fn law_next_token_counts_up(n: u64)
    ensures
        next_token(n) as int == (n + 1) % 0x1_0000_0000_0000_0000,
{
    lemma_token_after_value(n, 1);
}

} // verus!
