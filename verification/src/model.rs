//! The mathematical model of the icon bookkeeping, and what each operation
//! does to it.
use vstd::prelude::*;
use vstd::arithmetic::div_mod::{lemma_fundamental_div_mod, lemma_fundamental_div_mod_converse};

verus! {

/// An icon id as the model sees it.
pub type IconId = Seq<char>;

/// One live preview: the panel that owns it and the icon it shows.
pub type PreviewEntry = (u64, IconId);

/// The whole bookkeeping state.
///
/// An empty `applied`, `saved` or `synced` means that nothing was recorded
/// in that slot yet.
pub struct IconModel {
    /// The id reported for an empty slot.
    pub default_id: IconId,
    /// The icon last applied to the running Dock / Cmd-Tab image.
    pub applied: IconId,
    /// The icon of the configuration that last reached disk.
    pub saved: IconId,
    /// The icon last written successfully to the installed bundle.
    pub synced: IconId,
    /// The next token that `new_preview_owner` hands out.
    pub next_owner: u64,
    /// The live previews, oldest first; the last one drives the Dock.
    pub stack: Seq<PreviewEntry>,
}

/// The id that stands for a slot, or `default_id` when the slot is empty.
pub open spec fn or_default(id: IconId, default_id: IconId) -> IconId {
    if id.len() == 0 {
        default_id
    } else {
        id
    }
}

/// The saved icon, as `saved_id` reports it.
pub open spec fn saved_of(m: IconModel) -> IconId {
    or_default(m.saved, m.default_id)
}

/// The applied icon, as `applied_id` reports it.
pub open spec fn applied_of(m: IconModel) -> IconId {
    or_default(m.applied, m.default_id)
}

/// `stack` with every entry of `owner` left out, the others in their order.
pub open spec fn remove_owner(stack: Seq<PreviewEntry>, owner: u64) -> Seq<PreviewEntry>
    decreases stack.len(),
{
    if stack.len() == 0 {
        stack
    } else {
        let rest = remove_owner(stack.drop_last(), owner);
        if stack.last().0 == owner {
            rest
        } else {
            rest.push(stack.last())
        }
    }
}

/// `stack` holds an entry of `owner`.
pub open spec fn has_owner(stack: Seq<PreviewEntry>, owner: u64) -> bool {
    exists|j: int| 0 <= j < stack.len() && (#[trigger] stack[j]).0 == owner
}

/// No owner has two entries in `stack`.
pub open spec fn owners_distinct(stack: Seq<PreviewEntry>) -> bool {
    forall|i: int, j: int|
        0 <= i < stack.len() && 0 <= j < stack.len() && i != j ==> (#[trigger] stack[i]).0
            != (#[trigger] stack[j]).0
}

/// What every reachable state satisfies: the default id is not empty, so
/// every slot reads as a real icon, and no panel has two live previews.
pub open spec fn well_formed(m: IconModel) -> bool {
    &&& m.default_id.len() > 0
    &&& owners_distinct(m.stack)
}

/// `owner` drives the Dock: its entry is the last one of `stack`.
pub open spec fn is_top_owner(stack: Seq<PreviewEntry>, owner: u64) -> bool {
    stack.len() > 0 && stack.last().0 == owner
}

/// The Dock shows what the model says it should: the newest live preview,
/// or the saved icon when no preview is live.
pub open spec fn dock_consistent(m: IconModel) -> bool {
    m.applied == if m.stack.len() > 0 {
        m.stack.last().1
    } else {
        saved_of(m)
    }
}

/// `m` after the running image was set to `id`.
pub open spec fn applied(m: IconModel, id: IconId) -> IconModel {
    IconModel { applied: id, ..m }
}

/// `m` after the saved icon was recorded as `id`.
pub open spec fn remembered(m: IconModel, id: IconId) -> IconModel {
    IconModel { saved: id, ..m }
}

/// `m` after `owner` applied a live preview of `id`: the Dock shows `id`
/// and the owner's single entry moves to the top.
pub open spec fn previewed(m: IconModel, owner: u64, id: IconId) -> IconModel {
    IconModel { applied: id, stack: remove_owner(m.stack, owner).push((owner, id)), ..m }
}

/// The icon that the Dock falls back to when `owner` releases its preview:
/// `None` when `owner` was not driving the Dock, else the preview below it,
/// or the saved icon when none is left.
pub open spec fn restore_target(m: IconModel, owner: u64) -> Option<IconId> {
    if is_top_owner(m.stack, owner) {
        let rest = remove_owner(m.stack, owner);
        Some(
            if rest.len() > 0 {
                rest.last().1
            } else {
                saved_of(m)
            },
        )
    } else {
        None
    }
}

/// `m` after `owner` released its preview.
pub open spec fn restored(m: IconModel, owner: u64) -> IconModel {
    let rest = IconModel { stack: remove_owner(m.stack, owner), ..m };
    match restore_target(m, owner) {
        Some(id) => applied(rest, id),
        None => rest,
    }
}

/// `m` after `owner`'s preview was dropped following a save: all previews
/// go when `owner` drove the Dock, else only the owner's own.
pub open spec fn cleared(m: IconModel, owner: u64) -> IconModel {
    IconModel {
        stack: if is_top_owner(m.stack, owner) {
            Seq::empty()
        } else {
            remove_owner(m.stack, owner)
        },
        ..m
    }
}

/// `m` after a persisted icon `id` was loaded: saved, applied, no previews.
pub open spec fn persisted(m: IconModel, id: IconId) -> IconModel {
    IconModel { saved: id, applied: id, stack: Seq::empty(), ..m }
}

/// The installed bundle still has to be written: its icon is not the saved one.
pub open spec fn file_icon_pending(m: IconModel) -> bool {
    m.synced != saved_of(m)
}

/// `m` after the saved icon was written to the installed bundle.
pub open spec fn file_icon_synced(m: IconModel) -> IconModel {
    IconModel { synced: saved_of(m), ..m }
}

/// The icon a panel writes to the configuration: its own choice when it
/// changed the icon since its snapshot, else the process-wide saved icon.
pub open spec fn save_choice(m: IconModel, panel: IconId, snapshot: Option<IconId>) -> IconId {
    if snapshot == Some(panel) {
        saved_of(m)
    } else {
        panel
    }
}

/// The token handed out after `n`.
pub open spec fn next_token(n: u64) -> u64 {
    vstd::wrapping::u64_specs::wrapping_add(n, 1)
}

/// The token that `new_preview_owner` hands out after `calls` earlier calls,
/// when the counter stood at `start`.
pub open spec fn token_after(start: u64, calls: nat) -> u64
    decreases calls,
{
    if calls == 0 {
        start
    } else {
        next_token(token_after(start, (calls - 1) as nat))
    }
}

/// The token after `calls` calls is `start + calls` modulo 2^64.
pub proof fn lemma_token_after_value(start: u64, calls: nat)
    ensures
        token_after(start, calls) as int == (start + calls) % 0x1_0000_0000_0000_0000,
    decreases calls,
{
    let m: int = 0x1_0000_0000_0000_0000;
    if calls > 0 {
        lemma_token_after_value(start, (calls - 1) as nat);
        let a: int = start + calls - 1;
        let q: int = a / m;
        let r: int = a % m;
        lemma_fundamental_div_mod(a, m);
        if r + 1 < m {
            lemma_fundamental_div_mod_converse(a + 1, m, q, r + 1);
        } else {
            lemma_fundamental_div_mod_converse(a + 1, m, q + 1, 0);
        }
    }
}

/// Removing an owner from a stack with one more entry on top.
pub proof fn lemma_remove_owner_push(stack: Seq<PreviewEntry>, e: PreviewEntry, owner: u64)
    ensures
        remove_owner(stack.push(e), owner) == if e.0 == owner {
            remove_owner(stack, owner)
        } else {
            remove_owner(stack, owner).push(e)
        },
{
    assert(stack.push(e).drop_last() =~= stack);
}

/// What is left after removing an owner came from the stack and is not that owner's.
pub proof fn lemma_remove_owner_has(stack: Seq<PreviewEntry>, owner: u64, x: u64)
    ensures
        has_owner(remove_owner(stack, owner), x) ==> has_owner(stack, x) && x != owner,
    decreases stack.len(),
{
    if stack.len() > 0 {
        let r = remove_owner(stack.drop_last(), owner);
        lemma_remove_owner_has(stack.drop_last(), owner, x);
        if has_owner(remove_owner(stack, owner), x) {
            let k = choose|k: int|
                0 <= k < remove_owner(stack, owner).len() && (#[trigger] remove_owner(
                    stack,
                    owner,
                )[k]).0 == x;
            if stack.last().0 != owner && k == r.len() {
                assert(stack[stack.len() - 1].0 == x);
            } else {
                assert(r[k].0 == x);
                assert(has_owner(r, x));
                let j = choose|j: int|
                    0 <= j < stack.drop_last().len() && (#[trigger] stack.drop_last()[j]).0 == x;
                assert(stack[j].0 == x);
            }
        }
    }
}

/// No entry of the removed owner is left.
pub proof fn lemma_remove_owner_gone(stack: Seq<PreviewEntry>, owner: u64)
    ensures
        !has_owner(remove_owner(stack, owner), owner),
{
    lemma_remove_owner_has(stack, owner, owner);
}

/// Removing an owner that has no entry changes nothing.
pub proof fn lemma_remove_absent_owner(stack: Seq<PreviewEntry>, owner: u64)
    requires
        !has_owner(stack, owner),
    ensures
        remove_owner(stack, owner) == stack,
    decreases stack.len(),
{
    if stack.len() > 0 {
        assert forall|j: int| 0 <= j < stack.drop_last().len() implies (
        #[trigger] stack.drop_last()[j]).0 != owner by {
            assert(stack[j] == stack.drop_last()[j]);
        }
        lemma_remove_absent_owner(stack.drop_last(), owner);
        assert(stack[stack.len() - 1].0 != owner);
        assert(stack.drop_last().push(stack.last()) =~= stack);
    }
}

/// Pushing an entry whose owner is not yet in a stack keeps owners distinct.
pub proof fn lemma_push_new_owner(stack: Seq<PreviewEntry>, e: PreviewEntry)
    requires
        owners_distinct(stack),
        !has_owner(stack, e.0),
    ensures
        owners_distinct(stack.push(e)),
{
    let p = stack.push(e);
    assert forall|i: int, j: int|
        0 <= i < p.len() && 0 <= j < p.len() && i != j implies (#[trigger] p[i]).0 != (
    #[trigger] p[j]).0 by {
        if i < stack.len() && j < stack.len() {
            assert(p[i] == stack[i] && p[j] == stack[j]);
        } else if i < stack.len() {
            assert(p[i] == stack[i]);
            assert(!(stack[i].0 == e.0));
        } else {
            assert(p[j] == stack[j]);
            assert(!(stack[j].0 == e.0));
        }
    }
}

/// Removing an owner keeps the owners of a stack distinct.
pub proof fn lemma_remove_owner_distinct(stack: Seq<PreviewEntry>, owner: u64)
    requires
        owners_distinct(stack),
    ensures
        owners_distinct(remove_owner(stack, owner)),
    decreases stack.len(),
{
    if stack.len() > 0 {
        let d = stack.drop_last();
        assert forall|i: int, j: int|
            0 <= i < d.len() && 0 <= j < d.len() && i != j implies (#[trigger] d[i]).0 != (
        #[trigger] d[j]).0 by {
            assert(d[i] == stack[i] && d[j] == stack[j]);
        }
        lemma_remove_owner_distinct(d, owner);
        let e = stack.last();
        if e.0 != owner {
            lemma_remove_owner_has(d, owner, e.0);
            assert(!has_owner(d, e.0)) by {
                if has_owner(d, e.0) {
                    let j = choose|j: int| 0 <= j < d.len() && (#[trigger] d[j]).0 == e.0;
                    assert(stack[j].0 == stack[stack.len() - 1].0);
                }
            }
            lemma_push_new_owner(remove_owner(d, owner), e);
        }
    }
}

/// Removing an owner never makes owners collide.
pub proof fn lemma_remove_owner_distinct_if(stack: Seq<PreviewEntry>, owner: u64)
    ensures
        owners_distinct(stack) ==> owners_distinct(remove_owner(stack, owner)),
{
    if owners_distinct(stack) {
        lemma_remove_owner_distinct(stack, owner);
    }
}

/// A preview keeps the owners of the stack distinct.
pub proof fn lemma_preview_keeps_distinct(stack: Seq<PreviewEntry>, owner: u64, id: IconId)
    ensures
        owners_distinct(stack) ==> owners_distinct(remove_owner(stack, owner).push((owner, id))),
{
    if owners_distinct(stack) {
        lemma_remove_owner_distinct(stack, owner);
        lemma_remove_owner_gone(stack, owner);
        lemma_push_new_owner(remove_owner(stack, owner), (owner, id));
    }
}

/// Removing an owner that is not on top keeps the top entry.
pub proof fn lemma_remove_owner_keeps_top(stack: Seq<PreviewEntry>, owner: u64)
    requires
        stack.len() > 0,
        !is_top_owner(stack, owner),
    ensures
        remove_owner(stack, owner).len() > 0,
        remove_owner(stack, owner).last() == stack.last(),
{
}

} // verus!
