use coppy::hotkey::{
    classify_hook_event, toggle_plan, FocusContext, HookEvent, HotkeyState, ToggleAction,
};
use coppy::paste::{
    injection_result, paste_chord, ChordKey, KeyDirection, PasteAction, PasteError, PastePhase,
    RetryDecision, RetryState, MAX_WRITE_ATTEMPTS, SETTLE_DELAY_MS, WRITE_BACKOFF_MS,
};
use coppy::save::{choose_save_dir, save_file_name, temp_file_name, FileExt, SaveDirError};

#[test]
fn double_tap_within_window_fires() {
    let mut s = HotkeyState::new();
    assert_eq!(s.last_release_ms, 0);
    // First release arms the detector.
    assert!(!s.on_modifier_release(1000));
    assert_eq!(s.last_release_ms, 1000);
    // A second release 399 ms later fires and resets to idle.
    assert!(s.on_modifier_release(1399));
    assert_eq!(s.last_release_ms, 0);
}

#[test]
fn double_tap_at_window_edge_rearms() {
    let mut s = HotkeyState::new();
    assert!(!s.on_modifier_release(1000));
    // 401 ms later: outside the window, no fire, re-armed from the later release.
    assert!(!s.on_modifier_release(1401));
    assert_eq!(s.last_release_ms, 1401);
    // A third release inside the window of the re-armed time fires.
    assert!(s.on_modifier_release(1700));
    assert_eq!(s.last_release_ms, 0);
}

#[test]
fn hook_event_classification() {
    // Left control key-up with the release bit set.
    assert_eq!(classify_hook_event(0xA2, 0x101, 0x80), HookEvent::ModifierRelease);
    // Right control system key-up.
    assert_eq!(classify_hook_event(0xA3, 0x105, 0x80), HookEvent::ModifierRelease);
    // Control key-down.
    assert_eq!(classify_hook_event(0xA2, 0x100, 0x00), HookEvent::ModifierPress);
    // Another key's release is not the gesture's business.
    assert_eq!(classify_hook_event(0x41, 0x101, 0x80), HookEvent::Other);
    // Release bit without a key-up message.
    assert_eq!(classify_hook_event(0xA2, 0x100, 0x80), HookEvent::Other);
}

#[test]
fn toggle_hides_visible_window() {
    assert_eq!(toggle_plan(true, 42), ToggleAction::Hide);
}

#[test]
fn toggle_shows_hidden_window_and_captures_focus() {
    assert_eq!(toggle_plan(false, 42), ToggleAction::Show { capture_handle: 42 });
}

#[test]
fn focus_context_round_trip() {
    let mut ctx = FocusContext::new();
    assert_eq!(ctx.handle_to_restore(), None);
    ctx.record(7);
    assert_eq!(ctx.handle_to_restore(), Some(7));
}

#[test]
fn retry_succeeds_on_last_attempt() {
    // Writes fail on every attempt but the last; the loop must reach it.
    let mut s = RetryState::new();
    for _ in 0..(MAX_WRITE_ATTEMPTS - 1) {
        assert_eq!(
            s.record_attempt(false),
            RetryDecision::RetryAfterBackoff { delay_ms: WRITE_BACKOFF_MS }
        );
    }
    assert_eq!(s.record_attempt(true), RetryDecision::Done);
    assert_eq!(s.attempts_done, MAX_WRITE_ATTEMPTS);
}

#[test]
fn retry_gives_up_after_all_attempts_fail() {
    let mut s = RetryState::new();
    for _ in 0..(MAX_WRITE_ATTEMPTS - 1) {
        assert_eq!(
            s.record_attempt(false),
            RetryDecision::RetryAfterBackoff { delay_ms: WRITE_BACKOFF_MS }
        );
    }
    assert_eq!(s.record_attempt(false), RetryDecision::GiveUp);
}

#[test]
fn retry_stops_at_first_success() {
    let mut s = RetryState::new();
    assert_eq!(s.record_attempt(true), RetryDecision::Done);
    assert_eq!(s.attempts_done, 1);
}

#[test]
fn chord_is_modifier_wrapped_paste_key() {
    let chord = paste_chord();
    assert_eq!(chord.len(), 4);
    assert_eq!(chord[0].key, ChordKey::Modifier);
    assert_eq!(chord[0].direction, KeyDirection::Press);
    assert_eq!(chord[1].key, ChordKey::PasteKey);
    assert_eq!(chord[1].direction, KeyDirection::Press);
    assert_eq!(chord[2].key, ChordKey::PasteKey);
    assert_eq!(chord[2].direction, KeyDirection::Release);
    assert_eq!(chord[3].key, ChordKey::Modifier);
    assert_eq!(chord[3].direction, KeyDirection::Release);
}

#[test]
fn injection_judged_by_accepted_count() {
    assert!(injection_result(4, 4).is_ok());
    assert_eq!(
        injection_result(4, 3),
        Err(PasteError::InjectionRejected { requested: 4, accepted: 3 })
    );
}

#[test]
fn paste_protocol_runs_in_order() {
    let mut phase = PastePhase::Start;
    assert_eq!(phase.next_action(), PasteAction::HideWindow);
    phase = phase.advance(true);
    assert_eq!(phase, PastePhase::Hidden);
    assert_eq!(phase.next_action(), PasteAction::WriteClipboard);
    phase = phase.advance(true);
    assert_eq!(phase, PastePhase::Written);
    assert_eq!(phase.next_action(), PasteAction::RestoreFocus);
    // Focus restoration is best effort: a failed request still advances.
    phase = phase.advance(false);
    assert_eq!(phase, PastePhase::FocusRequested);
    assert_eq!(phase.next_action(), PasteAction::Wait { ms: SETTLE_DELAY_MS });
    phase = phase.advance(true);
    assert_eq!(phase, PastePhase::Settled);
    assert_eq!(phase.next_action(), PasteAction::InjectChord);
    phase = phase.advance(true);
    assert_eq!(phase, PastePhase::Completed);
    assert_eq!(phase.next_action(), PasteAction::Idle);
}

#[test]
fn paste_protocol_fails_on_exhausted_write() {
    let phase = PastePhase::Hidden;
    assert_eq!(phase.advance(false), PastePhase::Failed);
}

#[test]
fn paste_protocol_fails_on_rejected_chord() {
    let phase = PastePhase::Settled;
    assert_eq!(phase.advance(false), PastePhase::Failed);
}

#[test]
fn save_dir_prefers_resolved_folder() {
    let r = choose_save_dir(
        Some("C:\\Users\\me\\Pictures".to_string()),
        Some("C:\\Users\\me\\Downloads".to_string()),
        Some("C:\\Users\\me\\AppData".to_string()),
    );
    assert_eq!(r, Ok("C:\\Users\\me\\Pictures".to_string()));
}

#[test]
fn unresolved_folder_falls_back_to_downloads() {
    // Resolution came back unresolved: the save still gets a directory.
    let r = choose_save_dir(
        None,
        Some("C:\\Users\\me\\Downloads".to_string()),
        Some("C:\\Users\\me\\AppData".to_string()),
    );
    assert_eq!(r, Ok("C:\\Users\\me\\Downloads".to_string()));
}

#[test]
fn unresolved_folder_falls_back_to_app_data() {
    let r = choose_save_dir(None, None, Some("C:\\Users\\me\\AppData".to_string()));
    assert_eq!(r, Ok("C:\\Users\\me\\AppData".to_string()));
}

#[test]
fn no_candidate_directory_is_an_error() {
    assert_eq!(choose_save_dir(None, None, None), Err(SaveDirError::NoOutputDir));
}

#[test]
fn save_file_names_carry_timestamp_and_extension() {
    assert_eq!(save_file_name(1234, FileExt::Png), b"coppy_1234.png".to_vec());
    assert_eq!(save_file_name(0, FileExt::Jpg), b"coppy_0.jpg".to_vec());
    assert_eq!(
        save_file_name(1700000000123, FileExt::Png),
        b"coppy_1700000000123.png".to_vec()
    );
}

#[test]
fn temp_file_names_carry_timestamp() {
    assert_eq!(temp_file_name(7), b"coppy_clipboard_7.png".to_vec());
}
