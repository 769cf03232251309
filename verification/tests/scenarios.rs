use speak_it::paths::is_recording_file_name;
use speak_it::prune::select_recordings_to_prune;
use speak_it::report::{doctor_output, DependencyReport};
use speak_it::text::normalize_transcript_text;

#[test]
fn doctor_output_includes_expected_hints() {
    let report = DependencyReport {
        api_key_present: false,
        x11_display_present: false,
        x11_session_detected: false,
        xdotool_present: false,
        clipboard_tool: None,
        recorder: None,
    };
    let (ok, lines) = doctor_output(&report);
    assert!(!ok);
    assert!(
        lines
            .iter()
            .any(|line| line.contains("export ZHIPUAI_API_KEY"))
    );
    assert!(lines.iter().any(|line| line.contains("xdotool")));
    assert!(lines.iter().any(|line| line.contains("xclip or xsel")));
    assert!(
        lines
            .iter()
            .any(|line| line.contains("ffmpeg or alsa-utils"))
    );
}

#[test]
fn prune_recordings_keeps_latest_ten() {
    // Twelve recordings, the one with index i modified (12 - i) seconds ago,
    // and one file that is not a recording, as a directory listing gives them.
    let now: i128 = 1_700_000_000_000_000_000;
    let mut names: Vec<String> = Vec::new();
    let mut times: Vec<i128> = Vec::new();
    for index in 0..12 {
        names.push(format!("speak-it-{index:02}.wav"));
        times.push(now - (12 - index) as i128 * 1_000_000_000);
    }
    names.push("notes.txt".to_string());
    times.push(now);

    let mut candidates: Vec<usize> = Vec::new();
    let mut candidate_times: Vec<i128> = Vec::new();
    for (i, name) in names.iter().enumerate() {
        if is_recording_file_name(name) {
            candidates.push(i);
            candidate_times.push(times[i]);
        }
    }
    let removed: Vec<usize> = select_recordings_to_prune(&candidate_times, 10)
        .into_iter()
        .map(|j| candidates[j])
        .collect();
    let mut kept: Vec<String> = names
        .iter()
        .enumerate()
        .filter(|(i, name)| name.ends_with(".wav") && !removed.contains(i))
        .map(|(_, name)| name.clone())
        .collect();
    kept.sort();

    assert_eq!(kept.len(), 10);
    assert!(!kept.iter().any(|name| name == "speak-it-00.wav"));
    assert!(!kept.iter().any(|name| name == "speak-it-01.wav"));
    assert!(!removed.contains(&12));
}

#[test]
fn normalize_transcript_text_removes_filler_tokens() {
    assert_eq!(normalize_transcript_text("n 我 想 说"), "我 想 说");
    assert_eq!(normalize_transcript_text("嗯 这个 r 可以"), "这个 可以");
    assert_eq!(normalize_transcript_text("normal text"), "normal text");
    assert_eq!(normalize_transcript_text("r,"), "");
}
