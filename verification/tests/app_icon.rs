use app_icon::icon_state::{
    apply_app_icon, apply_persisted, apply_preview, applied_id, clear_preview_owner, current_id,
    merge_saved_into, new_preview_owner, remember_saved, restore_saved_if_owner, saved_id,
    sync_file_icon, take_for_save, IconState,
};

fn reset() -> IconState {
    IconState::new("default")
}

fn ok() -> Result<(), anyhow::Error> {
    Ok(())
}

#[test]
fn file_icon_tracks_saved_choices_not_dock_previews() {
    let mut state = reset();
    apply_persisted(&mut state, "raccoon-a1");
    sync_file_icon(&mut state, |id: &str| {
        assert_eq!(id, "raccoon-a1");
        ok()
    });
    assert_eq!(state.synced_file_icon(), "raccoon-a1");

    apply_preview(&mut state, 1, "raccoon-b1");
    sync_file_icon(&mut state, |_: &str| -> Result<(), anyhow::Error> {
        panic!("preview must not change the file icon")
    });
    assert_eq!(state.synced_file_icon(), "raccoon-a1");
    restore_saved_if_owner(&mut state, 1);
    assert_eq!(state.synced_file_icon(), "raccoon-a1");

    apply_preview(&mut state, 2, "raccoon-c1");
    remember_saved(&mut state, "raccoon-c1");
    sync_file_icon(&mut state, |id: &str| {
        assert_eq!(id, "raccoon-c1");
        ok()
    });
    assert_eq!(state.synced_file_icon(), "raccoon-c1");
    remember_saved(&mut state, "default");
    sync_file_icon(&mut state, |id: &str| {
        assert_eq!(id, "default");
        ok()
    });
    assert_eq!(state.synced_file_icon(), "default");
}

#[test]
fn file_icon_retries_failures_but_skips_successful_duplicates() {
    let mut state = reset();
    remember_saved(&mut state, "raccoon-a1");
    sync_file_icon(&mut state, |_: &str| -> Result<(), anyhow::Error> {
        Err(anyhow::Error::msg("read-only bundle"))
    });
    assert!(state.synced_file_icon().is_empty());
    let mut calls = 0;
    sync_file_icon(&mut state, |_: &str| {
        calls += 1;
        ok()
    });
    sync_file_icon(&mut state, |_: &str| -> Result<(), anyhow::Error> {
        panic!("duplicate file write")
    });
    assert_eq!(calls, 1);
    remember_saved(&mut state, "default");
    sync_file_icon(&mut state, |_: &str| {
        calls += 1;
        ok()
    });
    assert_eq!(calls, 2);
}

#[test]
fn queued_sync_reads_latest_saved_icon_not_preview_or_old_save() {
    let mut state = reset();
    remember_saved(&mut state, "raccoon-a1");
    remember_saved(&mut state, "raccoon-b1");
    apply_preview(&mut state, 1, "raccoon-c1");
    sync_file_icon(&mut state, |id: &str| {
        assert_eq!(id, "raccoon-b1");
        ok()
    });
    sync_file_icon(&mut state, |_: &str| -> Result<(), anyhow::Error> {
        panic!("older queued task must not write again")
    });
}

#[test]
fn take_for_save_merges_stale_panels_and_keeps_explicit_changes() {
    let mut state = reset();
    remember_saved(&mut state, "raccoon-a1");
    assert_eq!(take_for_save(&state, "default", Some("default")), "raccoon-a1");
    assert_eq!(saved_id(&state), "raccoon-a1");

    assert_eq!(take_for_save(&state, "raccoon-c1", Some("default")), "raccoon-c1");
    assert_eq!(saved_id(&state), "raccoon-a1");

    remember_saved(&mut state, "raccoon-c1");
    assert_eq!(saved_id(&state), "raccoon-c1");
}

#[test]
fn restore_saved_only_when_this_owner_last_applied() {
    let mut state = reset();
    remember_saved(&mut state, "raccoon-a1");
    apply_preview(&mut state, 1, "raccoon-a2");
    apply_preview(&mut state, 2, "raccoon-a2");
    restore_saved_if_owner(&mut state, 1);
    assert_eq!(applied_id(&state), "raccoon-a2");
    restore_saved_if_owner(&mut state, 2);
    assert_eq!(applied_id(&state), "raccoon-a1");
}

#[test]
fn restore_promotes_the_preceding_live_preview() {
    let mut state = reset();
    remember_saved(&mut state, "raccoon-a1");
    apply_preview(&mut state, 1, "raccoon-a2");
    apply_preview(&mut state, 2, "raccoon-b1");
    restore_saved_if_owner(&mut state, 2);
    assert_eq!(applied_id(&state), "raccoon-a2");
    restore_saved_if_owner(&mut state, 1);
    assert_eq!(applied_id(&state), "raccoon-a1");
}

#[test]
fn merge_saved_into_keeps_the_process_wide_icon() {
    let mut state = reset();
    remember_saved(&mut state, "raccoon-a2");
    let mut stale = "raccoon-a1".to_string();
    merge_saved_into(&state, &mut stale);
    assert_eq!(stale, "raccoon-a2");
}

#[test]
fn saving_the_top_preview_does_not_leave_buried_entries() {
    let mut state = reset();
    remember_saved(&mut state, "raccoon-a1");
    apply_preview(&mut state, 1, "raccoon-a2");
    apply_preview(&mut state, 2, "raccoon-b1");
    remember_saved(&mut state, "raccoon-b1");
    clear_preview_owner(&mut state, 2);
    assert_eq!(applied_id(&state), "raccoon-b1");

    apply_preview(&mut state, 3, "raccoon-c1");
    restore_saved_if_owner(&mut state, 3);
    assert_eq!(applied_id(&state), "raccoon-b1");
}

#[test]
fn saving_a_buried_preview_keeps_the_live_top() {
    let mut state = reset();
    remember_saved(&mut state, "raccoon-a1");
    apply_preview(&mut state, 1, "raccoon-a2");
    apply_preview(&mut state, 2, "raccoon-b1");
    remember_saved(&mut state, "raccoon-a2");
    clear_preview_owner(&mut state, 1);
    assert_eq!(applied_id(&state), "raccoon-b1");
    restore_saved_if_owner(&mut state, 2);
    assert_eq!(applied_id(&state), "raccoon-a2");
}
