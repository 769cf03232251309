use speak_it::commands::{
    clipboard_command, modifier_variants, paste_command, plan_injection, recorder_command,
    stop_method, transcription_form_fields, StopMethod,
};
use speak_it::paths::{
    is_recording_file_name, recording_file_name, staging_parts, staging_recording_path, transcript_output_path,
    upload_file_name,
};
use speak_it::prune::select_recordings_to_prune;
use speak_it::report::{
    dependency_report_from, doctor_output, status_text, ClipboardTool, DependencyError,
    DependencyReport, RecorderKind, ToolAvailability,
};
use speak_it::session::{
    after_finish_step, count_hotkey_events, first_finish_step, FinishDecision, FinishStep,
    HotkeySession, KeyEvent, SessionAction,
};
use speak_it::text::{is_filler_token, normalize_transcript_text};
use speak_it::HOTKEY_KEYCODE;

fn full_report() -> DependencyReport {
    DependencyReport {
        api_key_present: true,
        x11_display_present: true,
        x11_session_detected: true,
        xdotool_present: true,
        clipboard_tool: Some(ClipboardTool::Xclip),
        recorder: Some(RecorderKind::Ffmpeg),
    }
}

fn all_tools() -> ToolAvailability {
    ToolAvailability { ffmpeg: true, arecord: true, xclip: true, xsel: true, xdotool: true }
}

#[test]
fn filler_tokens_are_recognised_through_case_and_punctuation() {
    assert!(is_filler_token("N,"));
    assert!(is_filler_token("Er!"));
    assert!(is_filler_token("嗯。"));
    assert!(is_filler_token("，啊？"));
    assert!(is_filler_token("EN"));
    assert!(!is_filler_token("nn"));
    assert!(!is_filler_token("，"));
    assert!(!is_filler_token(""));
    assert!(!is_filler_token("a"));
    assert!(!is_filler_token("n-n"));
}

#[test]
fn normalize_splits_on_unicode_whitespace() {
    assert_eq!(normalize_transcript_text("\u{3000}嗯\t好\n"), "好");
    assert_eq!(normalize_transcript_text(""), "");
    assert_eq!(normalize_transcript_text("  a   b  "), "a b");
    assert_eq!(normalize_transcript_text("er, well\u{a0}n. yes"), "well yes");
}

#[test]
fn normalize_is_idempotent_on_samples() {
    for s in ["n 我 想 说", "  er  ok  呃 ", "a\u{2003}b", "r,"] {
        let once = normalize_transcript_text(s);
        assert_eq!(normalize_transcript_text(&once), once);
    }
}

#[test]
fn validate_reports_each_missing_piece_in_order() {
    assert_eq!(full_report().validate(true), Ok(()));
    let mut r = full_report();
    r.recorder = None;
    assert_eq!(r.validate(true), Err(DependencyError::MissingRecorder));
    r.clipboard_tool = None;
    assert_eq!(r.validate(true), Err(DependencyError::MissingClipboardTool));
    r.xdotool_present = false;
    assert_eq!(r.validate(true), Err(DependencyError::MissingXdotool));
    r.x11_session_detected = false;
    assert_eq!(r.validate(true), Err(DependencyError::NotX11Session));
    r.x11_display_present = false;
    assert_eq!(r.validate(true), Err(DependencyError::DisplayNotSet));
    r.api_key_present = false;
    assert_eq!(r.validate(true), Err(DependencyError::MissingApiKey));
    assert_eq!(r.validate(false), Err(DependencyError::DisplayNotSet));
    let mut k = full_report();
    k.api_key_present = false;
    assert_eq!(k.validate(false), Ok(()));
    assert_eq!(k.validate(true), Err(DependencyError::MissingApiKey));
}

#[test]
fn dependency_errors_have_their_messages() {
    assert_eq!(DependencyError::MissingApiKey.message(), "missing ZHIPUAI_API_KEY");
    assert_eq!(DependencyError::DisplayNotSet.message(), "DISPLAY is not set");
    assert_eq!(
        DependencyError::NotX11Session.message(),
        "X11 session not detected; Wayland is unsupported"
    );
    assert_eq!(DependencyError::MissingXdotool.message(), "missing xdotool");
    assert_eq!(
        DependencyError::MissingClipboardTool.message(),
        "missing clipboard tool; install xclip or xsel"
    );
    assert_eq!(
        DependencyError::MissingRecorder.message(),
        "missing recorder; install ffmpeg or arecord"
    );
}

#[test]
fn report_from_probed_environment() {
    let r = dependency_report_from(Some("key"), Some(":0"), "", &all_tools());
    assert!(r.api_key_present && r.x11_display_present && r.x11_session_detected);
    assert_eq!(r.recorder, Some(RecorderKind::Ffmpeg));
    assert_eq!(r.clipboard_tool, Some(ClipboardTool::Xclip));

    let tools = ToolAvailability { ffmpeg: false, arecord: true, xclip: false, xsel: true, xdotool: false };
    let r = dependency_report_from(Some(" \t"), None, "X11", &tools);
    assert!(!r.api_key_present);
    assert!(!r.x11_display_present);
    assert!(r.x11_session_detected);
    assert!(!r.xdotool_present);
    assert_eq!(r.recorder, Some(RecorderKind::Arecord));
    assert_eq!(r.clipboard_tool, Some(ClipboardTool::Xsel));

    let none = ToolAvailability { ffmpeg: false, arecord: false, xclip: false, xsel: false, xdotool: true };
    let r = dependency_report_from(None, Some(""), "wayland", &none);
    assert!(!r.x11_display_present);
    assert!(!r.x11_session_detected);
    assert_eq!(r.recorder, None);
    assert_eq!(r.clipboard_tool, None);
    assert!(!dependency_report_from(None, None, "x1", &none).x11_session_detected);
}

#[test]
fn doctor_output_for_a_complete_environment() {
    let (ok, lines) = doctor_output(&full_report());
    assert!(ok);
    assert_eq!(
        lines,
        vec![
            "ZHIPUAI_API_KEY: ok",
            "DISPLAY: ok",
            "X11 session: ok",
            "xdotool: ok",
            "clipboard tool: xclip",
            "recorder: ffmpeg",
        ]
    );
}

#[test]
fn doctor_output_lists_every_hint() {
    let report = DependencyReport {
        api_key_present: false,
        x11_display_present: true,
        x11_session_detected: false,
        xdotool_present: false,
        clipboard_tool: None,
        recorder: None,
    };
    let (ok, lines) = doctor_output(&report);
    assert!(!ok);
    assert_eq!(
        lines,
        vec![
            "ZHIPUAI_API_KEY: missing",
            "DISPLAY: ok",
            "X11 session: not detected",
            "xdotool: missing",
            "clipboard tool: missing",
            "recorder: missing",
            "hint: export ZHIPUAI_API_KEY=...",
            "hint: install xdotool",
            "hint: install xclip or xsel",
            "hint: install ffmpeg or alsa-utils",
            "hint: run under an X11 desktop session",
        ]
    );
}

#[test]
fn doctor_agrees_with_validate() {
    let mut r = full_report();
    assert_eq!(doctor_output(&r).0, r.validate(true).is_ok());
    r.recorder = None;
    assert_eq!(doctor_output(&r).0, r.validate(true).is_ok());
    let mut k = full_report();
    k.api_key_present = false;
    assert_eq!(doctor_output(&k).0, k.validate(true).is_ok());
}

#[test]
fn status_text_picks_by_condition() {
    assert_eq!(status_text(true, "ok", "missing"), "ok");
    assert_eq!(status_text(false, "ok", "missing"), "missing");
}

#[test]
fn tools_have_their_names() {
    assert_eq!(RecorderKind::Ffmpeg.to_string(), "ffmpeg");
    assert_eq!(RecorderKind::Arecord.to_string(), "arecord");
    assert_eq!(ClipboardTool::Xclip.to_string(), "xclip");
    assert_eq!(ClipboardTool::Xsel.to_string(), "xsel");
}

#[test]
fn recorder_commands() {
    let c = recorder_command(RecorderKind::Ffmpeg, "/tmp/.a.wav.part");
    assert_eq!(c.program, "ffmpeg");
    assert_eq!(
        c.args,
        vec![
            "-hide_banner", "-loglevel", "error", "-y", "-f", "alsa", "-i", "default", "-ac", "1",
            "-f", "wav", "/tmp/.a.wav.part"
        ]
    );
    let c = recorder_command(RecorderKind::Arecord, "out.part");
    assert_eq!(c.program, "arecord");
    assert_eq!(c.args, vec!["-q", "-c", "1", "-f", "cd", "-t", "wav", "out.part"]);
}

#[test]
fn clipboard_and_paste_commands() {
    let c = clipboard_command(ClipboardTool::Xclip);
    assert_eq!(c.program, "xclip");
    assert_eq!(c.args, vec!["-selection", "clipboard"]);
    let c = clipboard_command(ClipboardTool::Xsel);
    assert_eq!(c.program, "xsel");
    assert_eq!(c.args, vec!["--clipboard", "--input"]);
    let c = paste_command();
    assert_eq!(c.program, "xdotool");
    assert_eq!(c.args, vec!["key", "--clearmodifiers", "ctrl+v"]);
}

#[test]
fn recorders_are_stopped_by_their_own_means() {
    assert_eq!(stop_method(RecorderKind::Ffmpeg, true), StopMethod::SendQuit);
    assert_eq!(stop_method(RecorderKind::Ffmpeg, false), StopMethod::Interrupt);
    assert_eq!(stop_method(RecorderKind::Arecord, true), StopMethod::Interrupt);
    assert_eq!(stop_method(RecorderKind::Arecord, false), StopMethod::Interrupt);
}

#[test]
fn injection_needs_a_clipboard_tool_only_for_text() {
    assert_eq!(plan_injection("", false, false), Ok(None));
    assert_eq!(plan_injection("hi", false, false), Err(DependencyError::MissingClipboardTool));
    assert_eq!(plan_injection("hi", false, true), Ok(Some(ClipboardTool::Xsel)));
    assert_eq!(plan_injection("hi", true, true), Ok(Some(ClipboardTool::Xclip)));
}

#[test]
fn hotkey_is_grabbed_under_lock_modifiers() {
    assert_eq!(modifier_variants(), [0, 2, 16, 18]);
}

#[test]
fn transcription_request_fields() {
    let f = transcription_form_fields("req-1");
    assert_eq!(
        f,
        vec![
            ("model".to_string(), "glm-asr-2512".to_string()),
            ("stream".to_string(), "false".to_string()),
            ("request_id".to_string(), "req-1".to_string()),
        ]
    );
}

#[test]
fn paths_beside_a_recording() {
    assert_eq!(
        staging_recording_path("/tmp/rec/speak-it-1.wav"),
        "/tmp/rec/.speak-it-1.wav.part"
    );
    assert_eq!(staging_recording_path("speak-it-1.wav"), ".speak-it-1.wav.part");
    assert_eq!(staging_recording_path("/"), "./.speak-it.wav.part");
    assert_eq!(transcript_output_path("/tmp/rec/speak-it-1.wav"), "/tmp/rec/speak-it-1.txt");
    assert_eq!(transcript_output_path("a"), "a.txt");
    assert_eq!(upload_file_name("/tmp/rec/x.wav"), "x.wav");
    assert_eq!(upload_file_name("/tmp/.."), "audio.wav");
}

#[test]
fn recording_names() {
    let n = recording_file_name("20240101-120000-123");
    assert_eq!(n, "speak-it-20240101-120000-123.wav");
    assert!(is_recording_file_name(&n));
    assert!(is_recording_file_name("speak-it-.wav"));
    assert!(!is_recording_file_name("speak-it.wav"));
    assert!(!is_recording_file_name("speak-it-1.txt"));
    assert!(!is_recording_file_name("notes.txt"));
    assert!(!is_recording_file_name("xspeak-it-1.wav"));
}

#[test]
fn pruning_selects_the_oldest_beyond_the_limit() {
    assert_eq!(select_recordings_to_prune(&vec![5, 1, 3], 3), Vec::<usize>::new());
    assert_eq!(select_recordings_to_prune(&vec![5, 1, 3], 5), Vec::<usize>::new());
    assert_eq!(select_recordings_to_prune(&vec![5, 1, 3], 1), vec![2, 1]);
    assert_eq!(select_recordings_to_prune(&vec![5, 1, 3], 0), vec![0, 2, 1]);
    // Equal times keep the listing order: the later-listed one goes first.
    assert_eq!(select_recordings_to_prune(&vec![7, 7, 7], 1), vec![1, 2]);
    assert_eq!(select_recordings_to_prune(&vec![-3, 9, -3, 0], 2), vec![0, 2]);
}

#[test]
fn hotkey_session_round_trip() {
    let mut s = HotkeySession::new();
    assert!(!s.is_recording());
    assert_eq!(s.on_event(None), SessionAction::Wait);
    assert_eq!(
        s.on_event(Some(KeyEvent::Press { keycode: HOTKEY_KEYCODE, time: 10 })),
        SessionAction::StartRecording
    );
    assert!(s.is_recording());
    assert_eq!(
        s.on_event(Some(KeyEvent::Press { keycode: HOTKEY_KEYCODE, time: 11 })),
        SessionAction::DuplicatePress
    );
    assert_eq!(
        s.on_event(Some(KeyEvent::Release { keycode: HOTKEY_KEYCODE, time: 20 })),
        SessionAction::CheckAutorepeat { keycode: HOTKEY_KEYCODE, time: 20 }
    );
    assert_eq!(
        s.on_release_followup(
            HOTKEY_KEYCODE,
            20,
            Some(KeyEvent::Press { keycode: HOTKEY_KEYCODE, time: 20 })
        ),
        SessionAction::SkipAutorepeat
    );
    assert!(s.is_recording());
    assert_eq!(
        s.on_release_followup(HOTKEY_KEYCODE, 30, Some(KeyEvent::Other)),
        SessionAction::FinishRecording
    );
    assert!(!s.is_recording());
    assert_eq!(
        s.on_release_followup(HOTKEY_KEYCODE, 40, None),
        SessionAction::ReleaseWithoutRecording
    );
    assert_eq!(s.on_event(Some(KeyEvent::Press { keycode: 9, time: 1 })), SessionAction::Ignore);
    assert_eq!(s.on_event(Some(KeyEvent::Release { keycode: 9, time: 1 })), SessionAction::Ignore);
    assert_eq!(s.on_event(Some(KeyEvent::Other)), SessionAction::Ignore);
    assert!(!s.is_recording());
}

#[test]
fn release_followed_by_a_later_press_is_not_autorepeat() {
    let mut s = HotkeySession::new();
    s.on_event(Some(KeyEvent::Press { keycode: HOTKEY_KEYCODE, time: 1 }));
    assert_eq!(
        s.on_release_followup(
            HOTKEY_KEYCODE,
            5,
            Some(KeyEvent::Press { keycode: HOTKEY_KEYCODE, time: 6 })
        ),
        SessionAction::FinishRecording
    );
}

#[test]
fn queued_hotkey_events_are_counted() {
    let events = vec![
        KeyEvent::Press { keycode: HOTKEY_KEYCODE, time: 1 },
        KeyEvent::Other,
        KeyEvent::Release { keycode: HOTKEY_KEYCODE, time: 2 },
        KeyEvent::Press { keycode: 10, time: 3 },
    ];
    assert_eq!(count_hotkey_events(&events), 2);
    assert_eq!(count_hotkey_events(&Vec::new()), 0);
}

#[test]
fn finishing_a_recording_runs_its_steps_in_order() {
    let mut step = first_finish_step();
    let mut seen = vec![step];
    loop {
        match after_finish_step(step, true) {
            FinishDecision::Run(next) => {
                step = next;
                seen.push(step);
            }
            other => {
                assert_eq!(other, FinishDecision::Done);
                break;
            }
        }
    }
    assert_eq!(
        seen,
        vec![
            FinishStep::StopRecorder,
            FinishStep::DrainQueue,
            FinishStep::PruneRecordings,
            FinishStep::Transcribe,
            FinishStep::WriteTranscript,
            FinishStep::InjectText,
        ]
    );
    assert_eq!(
        after_finish_step(FinishStep::Transcribe, false),
        FinishDecision::TranscriptionFailed
    );
    assert_eq!(after_finish_step(FinishStep::StopRecorder, false), FinishDecision::Abort);
    assert_eq!(after_finish_step(FinishStep::InjectText, false), FinishDecision::Abort);
}

#[test]
fn staging_parts_from_parent_and_name() {
    assert_eq!(
        staging_parts(Some("/tmp".to_string()), Some("a.wav".to_string())),
        ("/tmp".to_string(), ".a.wav.part".to_string())
    );
    assert_eq!(
        staging_parts(None, None),
        (".".to_string(), ".speak-it.wav.part".to_string())
    );
    assert!(!is_recording_file_name(&staging_parts(None, Some("speak-it-1.wav".to_string())).1));
}

#[test]
fn cleaning_pieces_joined_by_a_space() {
    for (a, b) in [("n 我", "说 er"), ("嗯", "ok"), ("x", "r,"), ("", "")] {
        let whole = normalize_transcript_text(&format!("{a} {b}"));
        let parts: Vec<String> = [normalize_transcript_text(a), normalize_transcript_text(b)]
            .into_iter()
            .filter(|s| !s.is_empty())
            .collect();
        assert_eq!(whole, parts.join(" "));
    }
}

#[test]
fn filler_ignores_marks_and_case() {
    for t in ["n", "Er", "ok", "嗯", "x"] {
        let base = is_filler_token(t);
        assert_eq!(is_filler_token(&format!("!,{t}。？")), base);
        assert_eq!(is_filler_token(&t.to_ascii_uppercase()), base);
        assert_eq!(is_filler_token(&t.to_ascii_lowercase()), base);
    }
}
