use nomad::actor_map::ActorRegistry;
use nomad::ids::{ActorId, BufferId};
use nomad::neovim::buffer_edited::{
    has_uneditable_eol, uneditable_eol_change,
    deleted_range_of_on_bytes, edit_of_on_bytes, ends_with_newline, eol_replacement,
    fix_on_bytes_args, fixeol_replacement, inserted_points_of_on_bytes, replacement_of_on_bytes,
    OnBytesArgs, Point,
};
use nomad::neovim::cursor::{point_of_window_cursor, window_cursor_of_point, NeovimCursor};
use nomad::neovim::decoration::{redraw_plan, should_redraw, Extmark, HighlightRange};
use nomad::neovim::events::{
    is_buf_file_post, on_edits, selection_cursor_moved, selection_mode_changed, selection_removed,
    BytesAction, CallbackDecision, CursorState, EditedState, RenameState, SaveState,
    SelectionEvent, SelectionState, mode_has_selected_range,
};
use nomad::neovim::progress::{Level, ProgressNotificationKind, ProgressReporter};
use nomad::text::replacement::Replacement;

fn args() -> OnBytesArgs {
    OnBytesArgs {
        changedtick: 3,
        start_row: 2,
        start_col: 4,
        start_offset: 20,
        old_end_row: 0,
        old_end_col: 3,
        old_end_len: 3,
        new_end_row: 0,
        new_end_col: 5,
        new_end_len: 5,
    }
}

fn buffer(handle: i32) -> BufferId {
    BufferId { handle }
}

#[test]
fn on_bytes_deleted_range() {
    assert_eq!(deleted_range_of_on_bytes(&args()), (20, 23));
}

#[test]
fn on_bytes_inserted_points_on_one_line() {
    let (start, end) = inserted_points_of_on_bytes(&args()).unwrap();
    assert_eq!(start, Point { line_idx: 2, byte_offset: 4 });
    assert_eq!(end, Point { line_idx: 2, byte_offset: 9 });
}

#[test]
fn on_bytes_inserted_points_across_lines() {
    let mut a = args();
    a.new_end_row = 2;
    a.new_end_col = 1;
    let (start, end) = inserted_points_of_on_bytes(&a).unwrap();
    assert_eq!(start, Point { line_idx: 2, byte_offset: 4 });
    assert_eq!(end, Point { line_idx: 4, byte_offset: 1 });
}

#[test]
fn on_bytes_pure_deletion() {
    let mut a = args();
    a.new_end_len = 0;
    assert!(inserted_points_of_on_bytes(&a).is_none());
    let repl = replacement_of_on_bytes(&a, "ignored");
    assert_eq!((repl.start(), repl.end(), repl.text()), (20, 23, ""));
}

#[test]
fn on_bytes_replacement_takes_the_inserted_text() {
    let repl = replacement_of_on_bytes(&args(), "hello");
    assert_eq!((repl.start(), repl.end(), repl.text()), (20, 23, "hello"));
}

#[test]
fn fix_on_bytes_args_resets_out_of_bounds_end() {
    let a = OnBytesArgs {
        changedtick: 1,
        start_row: 0,
        start_col: 0,
        start_offset: 0,
        old_end_row: 1,
        old_end_col: 0,
        old_end_len: 4,
        new_end_row: 1,
        new_end_col: 0,
        new_end_len: 1,
    };
    let fixed = fix_on_bytes_args(a, true);
    assert_eq!((fixed.new_end_row, fixed.new_end_col, fixed.new_end_len), (0, 0, 0));
    assert_eq!(fixed.old_end_len, 4);
    // The fix is idempotent.
    assert_eq!(fix_on_bytes_args(fixed, true), fixed);
    // A buffer that is not empty is left alone.
    assert_eq!(fix_on_bytes_args(a, false), a);
}

#[test]
fn newline_detection() {
    assert!(ends_with_newline("ab\n"));
    assert!(!ends_with_newline("ab"));
    assert!(!ends_with_newline(""));
}

#[test]
fn eol_activates_when_buffer_stops_being_empty() {
    let repl = eol_replacement(true, "abc", 4, false, 0).unwrap();
    assert_eq!((repl.start(), repl.end(), repl.text()), (3, 3, "\n"));
}

#[test]
fn eol_deactivates_when_buffer_becomes_empty() {
    let repl = eol_replacement(true, "", 0, true, 2).unwrap();
    assert_eq!((repl.start(), repl.end(), repl.text()), (0, 1, ""));
    // An edit whose old end column is zero already deleted the newline.
    assert!(eol_replacement(true, "", 0, true, 0).is_none());
}

#[test]
fn eol_ignored_without_uneditable_eol_or_with_trailing_newline() {
    assert!(eol_replacement(false, "abc", 4, false, 0).is_none());
    assert!(eol_replacement(true, "abc\n", 5, false, 0).is_none());
    assert!(eol_replacement(true, "abc", 10, false, 0).is_none());
}

#[test]
fn on_bytes_edit_lists_the_extra_replacement_last() {
    let edit = edit_of_on_bytes(
        ActorId { id: 5 },
        Replacement::new(0, 0, "abc"),
        Some(Replacement::insertion(3, "\n")),
    );
    assert_eq!(edit.made_by, ActorId { id: 5 });
    assert_eq!(edit.replacements.len(), 2);
    assert_eq!(edit.replacements.as_slice()[1].text(), "\n");
    let single = edit_of_on_bytes(ActorId::unknown(), Replacement::deletion(1, 2), None);
    assert_eq!(single.replacements.len(), 1);
}

#[test]
fn fixeol_turned_off_deletes_the_newline() {
    let repl = fixeol_replacement(10, true, false).unwrap();
    assert_eq!((repl.start(), repl.end(), repl.text()), (10, 11, ""));
}

#[test]
fn fixeol_turned_on_inserts_a_newline() {
    let repl = fixeol_replacement(10, false, true).unwrap();
    assert_eq!((repl.start(), repl.end(), repl.text()), (9, 9, "\n"));
}

#[test]
fn fixeol_unchanged_or_empty_buffer_does_nothing() {
    assert!(fixeol_replacement(10, true, true).is_none());
    assert!(fixeol_replacement(10, false, false).is_none());
    assert!(fixeol_replacement(0, true, false).is_none());
}

#[test]
fn buf_file_post_is_recognised() {
    assert!(is_buf_file_post("BufFilePost"));
    assert!(!is_buf_file_post("BufFilePre"));
    assert!(!is_buf_file_post("BufReadPost"));
}

#[test]
fn buffer_creation_fires_with_the_recorded_actor() {
    let mut state = RenameState::new();
    let mut registry = ActorRegistry::new();
    registry.record(buffer(3), ActorId { id: 42 });
    let d = state.on_buffer_created(&mut registry, buffer(3), "BufReadPost", true, true);
    assert_eq!(d, CallbackDecision::Fire(ActorId { id: 42 }));
    assert!(!d.should_detach());
    // The record was consumed.
    let d = state.on_buffer_created(&mut registry, buffer(3), "BufNewFile", true, true);
    assert_eq!(d, CallbackDecision::Fire(ActorId::unknown()));
}

#[test]
fn buffer_creation_skips_missing_buffers_and_detaches_without_callbacks() {
    let mut state = RenameState::new();
    let mut registry = ActorRegistry::new();
    assert_eq!(
        state.on_buffer_created(&mut registry, buffer(1), "BufReadPost", false, true),
        CallbackDecision::Skip
    );
    let d = state.on_buffer_created(&mut registry, buffer(1), "BufReadPost", true, false);
    assert_eq!(d, CallbackDecision::Detach);
    assert!(d.should_detach());
}

#[test]
fn rename_counts_as_creation_only_from_an_empty_name() {
    let mut state = RenameState::new();
    let mut registry = ActorRegistry::new();
    state.on_buf_file_pre(false);
    assert_eq!(
        state.on_buffer_created(&mut registry, buffer(1), "BufFilePost", true, true),
        CallbackDecision::Skip
    );
    state.on_buf_file_pre(true);
    assert_eq!(
        state.on_buffer_created(&mut registry, buffer(1), "BufFilePost", true, true),
        CallbackDecision::Fire(ActorId::unknown())
    );
    assert!(!state.old_name_was_empty);
}

#[test]
fn rename_counts_as_removal_only_to_an_empty_name() {
    let mut state = RenameState::new();
    let mut registry = ActorRegistry::new();
    registry.record(buffer(2), ActorId { id: 7 });
    state.on_buf_file_pre(true);
    assert_eq!(
        state.on_buffer_removed(&mut registry, buffer(2), "BufFilePost", true, true),
        CallbackDecision::Skip
    );
    state.on_buf_file_pre(false);
    assert_eq!(
        state.on_buffer_removed(&mut registry, buffer(2), "BufFilePost", false, true),
        CallbackDecision::Skip
    );
    state.on_buf_file_pre(false);
    assert_eq!(
        state.on_buffer_removed(&mut registry, buffer(2), "BufFilePost", true, true),
        CallbackDecision::Fire(ActorId { id: 7 })
    );
    assert_eq!(
        state.on_buffer_removed(&mut registry, buffer(2), "BufUnload", false, false),
        CallbackDecision::Detach
    );
}

#[test]
fn save_fires_once_with_the_announced_actor() {
    let mut state = SaveState::new();
    state.set_saved_by(ActorId { id: 11 });
    assert_eq!(state.on_buffer_saved(true, true), CallbackDecision::Fire(ActorId { id: 11 }));
    assert_eq!(state.on_buffer_saved(true, true), CallbackDecision::Fire(ActorId::unknown()));
    assert_eq!(state.on_buffer_saved(false, true), CallbackDecision::Detach);
    assert_eq!(state.on_buffer_saved(true, false), CallbackDecision::Detach);
}

#[test]
fn cursor_creation_skips_reentering_a_named_buffer() {
    let mut state = CursorState::new(buffer(1), false);
    let mut registry = ActorRegistry::new();
    assert_eq!(state.on_buf_enter(&mut registry, buffer(1), false, true, true), CallbackDecision::Skip);
    registry.record(buffer(2), ActorId { id: 3 });
    assert_eq!(
        state.on_buf_enter(&mut registry, buffer(2), false, true, true),
        CallbackDecision::Fire(ActorId { id: 3 })
    );
    assert_eq!(state.old_buffer, buffer(2));
}

#[test]
fn cursor_creation_reports_editing_a_file_from_an_unnamed_buffer() {
    let mut state = CursorState::new(buffer(1), true);
    let mut registry = ActorRegistry::new();
    assert_eq!(
        state.on_buf_enter(&mut registry, buffer(1), false, true, true),
        CallbackDecision::Fire(ActorId::unknown())
    );
    assert_eq!(state.on_buf_enter(&mut registry, buffer(5), false, false, true), CallbackDecision::Skip);
    assert_eq!(state.on_buf_enter(&mut registry, buffer(6), false, true, false), CallbackDecision::Detach);
}

#[test]
fn edited_state_replays_queued_edits_in_order() {
    let mut state = EditedState::new();
    state.enqueue(edit_of_on_bytes(ActorId { id: 1 }, Replacement::deletion(0, 1), None));
    state.enqueue(edit_of_on_bytes(ActorId { id: 2 }, Replacement::deletion(1, 2), None));
    match state.on_bytes(args(), false) {
        BytesAction::ReplayQueued(edits) => {
            assert_eq!(edits.len(), 2);
            assert_eq!(edits[0].made_by, ActorId { id: 1 });
            assert_eq!(edits[1].made_by, ActorId { id: 2 });
        },
        BytesAction::Translate(_) => panic!("expected the queued edits"),
    }
    match state.on_bytes(args(), false) {
        BytesAction::Translate(a) => assert_eq!(a, args()),
        BytesAction::ReplayQueued(_) => panic!("the queue was emptied"),
    }
}

#[test]
fn edited_state_agent_id_is_taken_once() {
    let mut state = EditedState::new();
    state.set_agent_id(ActorId { id: 8 });
    assert_eq!(state.take_agent_id(), ActorId { id: 8 });
    assert_eq!(state.take_agent_id(), ActorId::unknown());
}

#[test]
fn manual_trigger_only_for_the_current_buffer() {
    let mut state = EditedState::new();
    state.enqueue(edit_of_on_bytes(ActorId { id: 1 }, Replacement::deletion(0, 1), None));
    assert!(state.on_manual_trigger(false).is_none());
    let edits = state.on_manual_trigger(true).unwrap();
    assert_eq!(edits.len(), 1);
    assert!(state.on_manual_trigger(true).is_none());
}

#[test]
fn reporting_edits_detaches_without_callbacks() {
    assert_eq!(on_edits(true, false), CallbackDecision::Detach);
    assert!(matches!(on_edits(true, true), CallbackDecision::Fire(_)));
}

#[test]
fn selection_lives_until_its_mode_ends() {
    let mut alive = true;
    assert!(selection_cursor_moved(alive));
    assert!(!selection_mode_changed(&mut alive, false, false));
    assert!(alive);
    assert!(selection_mode_changed(&mut alive, true, true));
    assert!(alive);
    assert!(!selection_mode_changed(&mut alive, true, false));
    assert!(!alive);
    assert!(!selection_mode_changed(&mut alive, true, true));
    assert!(!selection_cursor_moved(alive));
}

#[test]
fn selection_removed_when_leaving_a_visual_mode() {
    assert!(selection_removed(true, true, false));
    assert!(!selection_removed(true, true, true));
    assert!(!selection_removed(false, true, false));
    assert!(!selection_removed(true, false, false));
}

#[test]
fn window_cursor_and_points_round_trip() {
    let point = point_of_window_cursor(3, 7);
    assert_eq!(point, Point { line_idx: 2, byte_offset: 7 });
    assert_eq!(window_cursor_of_point(point), (3, 7));
    let cursor = NeovimCursor::new(buffer(4));
    assert_eq!(cursor.buffer_id(), buffer(4));
    assert_eq!(cursor.id(), buffer(4));
}

#[test]
fn progress_notifications_carry_their_kind() {
    let reporter: ProgressReporter<u8, u16> = ProgressReporter::new(false, 1, 2);
    assert!(matches!(reporter, ProgressReporter::NvimEcho(1)));
    let notif = reporter.report_progress("half", Some(50));
    assert_eq!(notif.kind, ProgressNotificationKind::Progress(Some(50)));
    assert_eq!(notif.chunks, "half");
    let (reporter, notif) = reporter.report_success("done");
    assert_eq!(notif.kind, ProgressNotificationKind::Success);
    let (_, notif) = reporter.report_error("oops");
    assert_eq!(notif.kind, ProgressNotificationKind::Error);
    let notify: ProgressReporter<u8, u16> = ProgressReporter::new(true, 1, 2);
    assert!(matches!(notify, ProgressReporter::NvimNotify(2)));
}

#[test]
fn notification_levels() {
    assert_eq!(Level::from_kind(ProgressNotificationKind::Error), Level::Error);
    assert_eq!(Level::from_kind(ProgressNotificationKind::Success), Level::Info);
    assert_eq!(Level::from_kind(ProgressNotificationKind::Progress(None)), Level::Info);
}

#[test]
fn redraw_draws_live_ranges_and_forgets_dropped_ones() {
    let p = |l, b| Point { line_idx: l, byte_offset: b };
    let ranges = vec![
        HighlightRange { extmark_id: 1, start: p(0, 0), end: p(0, 3), was_dropped: false },
        HighlightRange { extmark_id: 2, start: p(1, 0), end: p(1, 3), was_dropped: true },
        HighlightRange { extmark_id: 3, start: p(2, 1), end: p(3, 0), was_dropped: false },
    ];
    let (draw, dropped, drawn) = redraw_plan(&ranges);
    assert_eq!(
        draw,
        vec![
            Extmark { extmark_id: 1, start: p(0, 0), end: p(0, 3) },
            Extmark { extmark_id: 3, start: p(2, 1), end: p(3, 0) },
        ]
    );
    assert_eq!(dropped, vec![1]);
    assert_eq!(drawn, vec![0, 2]);
    assert!(should_redraw(1));
    assert!(!should_redraw(0));
}

#[test]
fn trailing_eol_follows_the_options() {
    assert!(has_uneditable_eol(true, false, false));
    assert!(has_uneditable_eol(true, true, true));
    assert!(has_uneditable_eol(false, true, false));
    assert!(!has_uneditable_eol(false, true, true));
    assert!(!has_uneditable_eol(false, false, false));
}

#[test]
fn selection_ignores_other_buffers_and_ends_on_leaving_its_mode() {
    let mine = BufferId { handle: 3 };
    let other = BufferId { handle: 4 };
    let mut sel = SelectionState::new(mine);
    assert!(sel.on_event(SelectionEvent::CursorMoved(mine)));
    assert!(!sel.on_event(SelectionEvent::CursorMoved(other)));
    assert!(!sel.on_event(SelectionEvent::ModeChanged(other, false)));
    assert!(sel.alive);
    assert!(sel.on_event(SelectionEvent::ModeChanged(mine, true)));
    assert!(!sel.on_event(SelectionEvent::ModeChanged(mine, false)));
    assert!(!sel.alive);
    assert!(!sel.on_event(SelectionEvent::CursorMoved(mine)));
    assert!(!sel.on_event(SelectionEvent::ModeChanged(mine, true)));
}

#[test]
fn eol_change_follows_the_option_that_changed() {
    // 'fixendofline' turned off in a text buffer: the trailing newline goes.
    assert_eq!(uneditable_eol_change("fixendofline", true, false, false, false), (true, false));
    // 'endofline' turned on: the newline was kept by 'fixendofline' anyway.
    assert_eq!(uneditable_eol_change("endofline", false, true, true, false), (true, true));
    // 'binary' turned on without 'endofline': the newline goes.
    assert_eq!(uneditable_eol_change("binary", false, false, true, true), (true, false));
    // Another option changes nothing.
    assert_eq!(uneditable_eol_change("tabstop", false, false, true, false), (true, true));
}

#[test]
fn visual_and_select_modes_show_a_selected_range() {
    for mode in ["v", "V", "\u{16}", "s", "S", "\u{13}", "vs"] {
        assert!(mode_has_selected_range(mode));
    }
    for mode in ["", "n", "i", "no", "c"] {
        assert!(!mode_has_selected_range(mode));
    }
}

#[test]
fn translated_edit_takes_the_actor_and_adds_the_end_of_line() {
    let mut state = EditedState::new();
    state.set_agent_id(ActorId { id: 5 });
    // Typing "x" into an empty buffer whose end of line is not part of its
    // text: the buffer now has two bytes, and the newline appears.
    let typed = OnBytesArgs {
        changedtick: 1,
        start_row: 0,
        start_col: 0,
        start_offset: 0,
        old_end_row: 0,
        old_end_col: 0,
        old_end_len: 0,
        new_end_row: 0,
        new_end_col: 1,
        new_end_len: 1,
    };
    let edit = state.translate(&typed, "x", true, 2, false);
    assert_eq!(edit.made_by, ActorId { id: 5 });
    let replacements = edit.replacements.as_slice();
    assert_eq!(replacements.len(), 2);
    assert_eq!((replacements[0].start(), replacements[0].end(), replacements[0].text()), (0, 0, "x"));
    assert_eq!((replacements[1].start(), replacements[1].end(), replacements[1].text()), (1, 1, "\n"));
    // The actor is taken: the next edit is made by the unknown actor.
    let next = state.translate(&typed, "x", false, 2, false);
    assert!(next.made_by.is_unknown());
    assert_eq!(next.replacements.len(), 1);
}
