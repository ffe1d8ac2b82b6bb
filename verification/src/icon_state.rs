//! The icon bookkeeping state and its operations.
//!
//! Ids handed to these functions are already sanitized by the caller: the
//! catalogue of known icons lives with the configuration, not here.
//! Functions that may change the running Dock image return `true` when the
//! image has to be set to the newly applied icon; the caller does that work.
use vstd::prelude::*;
use crate::model::{
    IconModel, PreviewEntry, or_default, saved_of, applied_of, remove_owner,
    restore_target, applied, remembered, previewed, restored, cleared, persisted,
    file_icon_pending, file_icon_synced, save_choice, next_token, well_formed, lemma_remove_owner_push,
    lemma_preview_keeps_distinct, lemma_remove_owner_distinct_if,
};

verus! {

/// The model of a stack of `(owner, id)` entries.
pub open spec fn entries_view(s: Seq<(u64, String)>) -> Seq<PreviewEntry> {
    s.map_values(|e: (u64, String)| (e.0, e.1@))
}

/// The model of a stack keeps its length and, at each position, the owner
/// and the id of that entry.
pub proof fn lemma_entries_view_entrywise(s: Seq<(u64, String)>)
    ensures
        entries_view(s).len() == s.len(),
        forall|i: int| 0 <= i < s.len() ==> #[trigger] entries_view(s)[i] == (s[i].0, s[i].1@),
{
}

/// The process-wide icon state: running image, saved choice, installed
/// bundle icon, preview tokens and the preview stack.
pub struct IconState {
    default_id: String,
    applied: String,
    saved: String,
    synced: String,
    next_owner: u64,
    stack: Vec<(u64, String)>,
}

impl View for IconState {
    type V = IconModel;

    closed spec fn view(&self) -> IconModel {
        IconModel {
            default_id: self.default_id@,
            applied: self.applied@,
            saved: self.saved@,
            synced: self.synced@,
            next_owner: self.next_owner,
            stack: entries_view(self.stack@),
        }
    }
}

impl IconState {
    /// Every state of this type is well formed.
    #[verifier::type_invariant]
    spec fn is_well_formed(self) -> bool {
        well_formed(self@)
    }

    /// A fresh state: nothing applied, saved or synced, no previews, and the
    /// first preview token is 1. `default_id` is reported for empty slots.
    pub fn new(default_id: &str) -> (state: Self)
        requires
            default_id@.len() > 0,
        ensures
            state@ == (IconModel {
                default_id: default_id@,
                applied: Seq::empty(),
                saved: Seq::empty(),
                synced: Seq::empty(),
                next_owner: 1,
                stack: Seq::empty(),
            }),
    {
        let state = IconState {
            default_id: default_id.to_owned(),
            applied: String::new(),
            saved: String::new(),
            synced: String::new(),
            next_owner: 1,
            stack: Vec::new(),
        };
        proof {
            assert(entries_view(state.stack@) =~= Seq::empty());
        }
        state
    }

    /// The icon last written successfully to the installed bundle (empty
    /// when none was written yet).
    pub fn synced_file_icon(&self) -> (id: &str)
        ensures
            id@ == self@.synced,
            well_formed(self@),
    {
        proof {
            use_type_invariant(self);
        }
        self.synced.as_str()
    }
}

/// The id held in `slot`, or `default_id` when the slot is empty.
fn id_or_default(slot: &String, default_id: &String) -> (id: String)
    ensures
        id@ == or_default(slot@, default_id@),
{
    if slot.as_str().is_empty() {
        default_id.clone()
    } else {
        slot.clone()
    }
}

/// The icon applied to the running image, or the default before any.
pub fn applied_id(state: &IconState) -> (id: String)
    ensures
        id@ == applied_of(state@),
        id@.len() > 0,
{
    proof {
        use_type_invariant(state);
    }
    id_or_default(&state.applied, &state.default_id)
}

/// The icon the running application currently shows.
pub fn current_id(state: &IconState) -> (id: String)
    ensures
        id@ == applied_of(state@),
        id@.len() > 0,
{
    proof {
        use_type_invariant(state);
    }
    applied_id(state)
}

/// The icon of the last configuration that reached disk, or the default.
pub fn saved_id(state: &IconState) -> (id: String)
    ensures
        id@ == saved_of(state@),
        id@.len() > 0,
{
    proof {
        use_type_invariant(state);
    }
    id_or_default(&state.saved, &state.default_id)
}

/// Writing `id` to the installed bundle removes its custom icon rather than
/// setting one: the default icon is the bundle's own, unmodified resource.
pub fn clears_custom_file_icon(state: &IconState, id: &str) -> (clears: bool)
    ensures
        clears == (id@ == state@.default_id),
{
    let id = id.to_owned();
    id == state.default_id
}

/// Records `id` as the saved icon. Called only after the configuration
/// reached disk, or when loading a persisted one: file icons must never
/// follow an unsaved Dock preview.
pub fn remember_saved(state: &mut IconState, id: &str)
    ensures
        final(state)@ == remembered(old(state)@, id@),
        well_formed(final(state)@),
{
    proof {
        use_type_invariant(&*state);
    }
    state.saved = id.to_owned();
}

/// Applies `id` to the running Dock / Cmd-Tab image, previews included.
/// Returns whether the image has to be set, that is whether `id` differs
/// from the icon applied before.
pub fn apply_app_icon(state: &mut IconState, id: &str) -> (dock_changed: bool)
    ensures
        dock_changed == (old(state)@.applied != id@),
        final(state)@ == applied(old(state)@, id@),
        well_formed(final(state)@),
{
    proof {
        use_type_invariant(&*state);
    }
    let id = id.to_owned();
    if state.applied == id {
        proof {
            assert(state@ =~= applied(old(state)@, id@));
        }
        return false;
    }
    state.applied = id;
    true
}

/// Keeps the process-wide saved icon when a path other than the settings
/// panel writes the configuration.
pub fn merge_saved_into(state: &IconState, app_icon: &mut String)
    ensures
        final(app_icon)@ == saved_of(state@),
{
    *app_icon = saved_id(state);
}

/// The icon a panel writes when saving: its own choice if it changed the
/// icon since its snapshot, else the saved icon, so that a stale window
/// cannot clobber it. The state is not changed.
pub fn take_for_save(state: &IconState, panel_id: &str, snapshot_id: Option<&str>) -> (id: String)
    ensures
        id@ == save_choice(
            state@,
            panel_id@,
            match snapshot_id {
                Some(s) => Some(s@),
                None => None,
            },
        ),
{
    let panel = panel_id.to_owned();
    match snapshot_id {
        Some(snapshot) => {
            let snapshot = snapshot.to_owned();
            if snapshot == panel {
                saved_id(state)
            } else {
                panel
            }
        },
        None => panel,
    }
}

/// A fresh token for a settings panel that can own the live preview.
/// Tokens count up from 1 and wrap around after `u64::MAX`.
pub fn new_preview_owner(state: &mut IconState) -> (owner: u64)
    ensures
        owner == old(state)@.next_owner,
        final(state)@ == (IconModel { next_owner: next_token(old(state)@.next_owner), ..old(state)@ }),
        well_formed(final(state)@),
{
    proof {
        use_type_invariant(&*state);
    }
    let owner = state.next_owner;
    state.next_owner = owner.wrapping_add(1);
    owner
}

/// A copy of `stack` without the entries of `owner`.
fn without_owner(stack: &Vec<(u64, String)>, owner: u64) -> (rest: Vec<(u64, String)>)
    ensures
        entries_view(rest@) == remove_owner(entries_view(stack@), owner),
{
    let mut rest: Vec<(u64, String)> = Vec::new();
    let mut i: usize = 0;
    while i < stack.len()
        invariant
            0 <= i <= stack.len(),
            entries_view(rest@) == remove_owner(entries_view(stack@.take(i as int)), owner),
        decreases stack.len() - i,
    {
        let ghost e: PreviewEntry = (stack@[i as int].0, stack@[i as int].1@);
        proof {
            assert(entries_view(stack@.take(i + 1)) =~= entries_view(stack@.take(i as int)).push(
                e,
            ));
            lemma_remove_owner_push(entries_view(stack@.take(i as int)), e, owner);
        }
        let entry_owner = stack[i].0;
        if entry_owner != owner {
            let id = stack[i].1.clone();
            let ghost before = rest@;
            rest.push((entry_owner, id));
            proof {
                assert(entries_view(rest@) =~= entries_view(before).push(e));
            }
        }
        i += 1;
    }
    proof {
        assert(stack@.take(stack.len() as int) =~= stack@);
    }
    rest
}

/// Applies a live preview and records `owner` as the panel that last
/// changed the Dock. Re-applying from the same panel moves its single entry
/// to the top, even when the icon is unchanged. Returns whether the Dock
/// image has to be set.
pub fn apply_preview(state: &mut IconState, owner: u64, id: &str) -> (dock_changed: bool)
    ensures
        dock_changed == (old(state)@.applied != id@),
        final(state)@ == previewed(old(state)@, owner, id@),
        well_formed(final(state)@),
{
    proof {
        use_type_invariant(&*state);
    }
    let dock_changed = apply_app_icon(state, id);
    let mut stack = without_owner(&state.stack, owner);
    let ghost before = stack@;
    stack.push((owner, id.to_owned()));
    proof {
        assert(entries_view(stack@) =~= entries_view(before).push((owner, id@)));
        lemma_preview_keeps_distinct(old(state)@.stack, owner, id@);
    }
    state.stack = stack;
    proof {
        assert(state@ =~= previewed(old(state)@, owner, id@));
    }
    dock_changed
}

/// Restores the Dock when `owner` releases its preview. Its entry leaves
/// the stack; if it was driving the Dock, the preview below it is promoted,
/// and only an empty stack falls back to the saved icon. Returns whether
/// the Dock image has to be set.
pub fn restore_saved_if_owner(state: &mut IconState, owner: u64) -> (dock_changed: bool)
    ensures
        final(state)@ == restored(old(state)@, owner),
        dock_changed == (match restore_target(old(state)@, owner) {
            Some(id) => old(state)@.applied != id,
            None => false,
        }),
        well_formed(final(state)@),
{
    proof {
        use_type_invariant(&*state);
    }
    let len = state.stack.len();
    let was_top = len > 0 && state.stack[len - 1].0 == owner;
    let rest = without_owner(&state.stack, owner);
    proof {
        lemma_remove_owner_distinct_if(old(state)@.stack, owner);
    }
    state.stack = rest;
    if !was_top {
        proof {
            assert(state@ =~= restored(old(state)@, owner));
        }
        return false;
    }
    let rest_len = state.stack.len();
    if rest_len > 0 {
        let next = state.stack[rest_len - 1].1.clone();
        apply_app_icon(state, next.as_str())
    } else {
        let next = saved_id(state);
        apply_app_icon(state, next.as_str())
    }
}

/// Drops `owner`'s preview after a successful save without touching the
/// Dock. If `owner` was driving the Dock, the older buried previews are
/// dropped as well: the save just committed that image.
pub fn clear_preview_owner(state: &mut IconState, owner: u64)
    ensures
        final(state)@ == cleared(old(state)@, owner),
        well_formed(final(state)@),
{
    proof {
        use_type_invariant(&*state);
    }
    let len = state.stack.len();
    let was_top = len > 0 && state.stack[len - 1].0 == owner;
    if was_top {
        state.stack = Vec::new();
        proof {
            assert(entries_view(state.stack@) =~= Seq::empty());
        }
    } else {
        let rest = without_owner(&state.stack, owner);
        proof {
            lemma_remove_owner_distinct_if(old(state)@.stack, owner);
        }
        state.stack = rest;
    }
    proof {
        assert(state@ =~= cleared(old(state)@, owner));
    }
}

/// Applies a persisted icon at start-up, or when the configuration is
/// reloaded with no windows: it becomes the saved and the applied icon, and
/// every live preview is dropped. Returns whether the Dock image has to be
/// set.
pub fn apply_persisted(state: &mut IconState, id: &str) -> (dock_changed: bool)
    ensures
        dock_changed == (old(state)@.applied != id@),
        final(state)@ == persisted(old(state)@, id@),
        well_formed(final(state)@),
{
    proof {
        use_type_invariant(&*state);
    }
    remember_saved(state, id);
    let dock_changed = apply_app_icon(state, id);
    state.stack = Vec::new();
    proof {
        assert(entries_view(state.stack@) =~= Seq::empty());
        assert(state@ =~= persisted(old(state)@, id@));
    }
    dock_changed
}

/// The icon the installed bundle still has to receive: the saved icon, read
/// now, or `None` when the bundle already has it.
pub fn pending_file_icon(state: &IconState) -> (target: Option<String>)
    ensures
        match target {
            Some(id) => file_icon_pending(state@) && id@ == saved_of(state@),
            None => !file_icon_pending(state@),
        },
{
    let id = saved_id(state);
    if state.synced == id {
        None
    } else {
        Some(id)
    }
}

/// Records that `id` was written successfully to the installed bundle.
/// Only successes are recorded, so that a failed write is retried later.
pub fn record_file_icon(state: &mut IconState, id: &str)
    ensures
        final(state)@ == (IconModel { synced: id@, ..old(state)@ }),
        well_formed(final(state)@),
{
    proof {
        use_type_invariant(&*state);
    }
    state.synced = id.to_owned();
}

/// Brings the installed bundle's icon up to the saved icon. The saved icon
/// is read at call time, so a queued call never restores an older choice.
/// Nothing happens when the bundle already has it, and `apply` is not
/// called then: it may only be called while a write is pending. Otherwise
/// `apply` is called once with the saved icon, and only a success is recorded, so that
/// a failed write is retried by the next call.
pub fn sync_file_icon<E, F: FnOnce(&str) -> Result<(), E>>(state: &mut IconState, apply: F)
    requires
        file_icon_pending(old(state)@) ==> forall|s: &str|
            s@ == saved_of(old(state)@) ==> call_requires(apply, (s,)),
    ensures
        !file_icon_pending(old(state)@) ==> final(state)@ == old(state)@,
        file_icon_pending(old(state)@) ==> exists|s: &str, r: Result<(), E>|
            s@ == saved_of(old(state)@) && #[trigger] call_ensures(apply, (s,), r)
                && final(state)@ == (if r is Ok {
                file_icon_synced(old(state)@)
            } else {
                old(state)@
            }),
        well_formed(final(state)@),
{
    proof {
        use_type_invariant(&*state);
    }
    if let Some(id) = pending_file_icon(state) {
        let target = id.as_str();
        let outcome = apply(target);
        proof {
            assert(call_ensures(apply, (target,), outcome));
        }
        match outcome {
            Ok(()) => {
                record_file_icon(state, target);
                proof {
                    assert(state@ =~= file_icon_synced(old(state)@));
                }
            },
            Err(_) => {},
        }
    }
}

} // verus!
