//! The environment check: which tools were found, the report built from what
//! was probed, the first problem that stops the daemon, and the lines that the
//! `doctor` command prints.

use vstd::prelude::*;
use crate::text::{chars_of, lower_code, eq_ignore_ascii_case, is_unicode_whitespace, is_whitespace};

verus! {

/// The program that records audio from the default ALSA device.
#[derive(Debug, Clone, Copy, PartialEq, Eq, Structural)]
pub enum RecorderKind {
    Ffmpeg,
    Arecord,
}

/// The program that puts the transcript on the X11 clipboard.
#[derive(Debug, Clone, Copy, PartialEq, Eq, Structural)]
pub enum ClipboardTool {
    Xclip,
    Xsel,
}

impl RecorderKind {
    /// The name of the program.
    pub open spec fn name(self) -> Seq<char> {
        match self {
            RecorderKind::Ffmpeg => "ffmpeg"@,
            RecorderKind::Arecord => "arecord"@,
        }
    }

    /// The name of the program, as it is shown and run.
    pub fn to_string(&self) -> (s: String)
        ensures
            s@ == self.name(),
    {
        match self {
            RecorderKind::Ffmpeg => String::from_str("ffmpeg"),
            RecorderKind::Arecord => String::from_str("arecord"),
        }
    }
}

impl ClipboardTool {
    /// The name of the program.
    pub open spec fn name(self) -> Seq<char> {
        match self {
            ClipboardTool::Xclip => "xclip"@,
            ClipboardTool::Xsel => "xsel"@,
        }
    }

    /// The name of the program, as it is shown and run.
    pub fn to_string(&self) -> (s: String)
        ensures
            s@ == self.name(),
    {
        match self {
            ClipboardTool::Xclip => String::from_str("xclip"),
            ClipboardTool::Xsel => String::from_str("xsel"),
        }
    }
}

/// Which of the external programs were found on the `PATH`.
#[derive(Debug, Clone, Copy)]
pub struct ToolAvailability {
    pub ffmpeg: bool,
    pub arecord: bool,
    pub xclip: bool,
    pub xsel: bool,
    pub xdotool: bool,
}

/// What the daemon needs from its environment, and what was found.
#[derive(Debug, Clone)]
pub struct DependencyReport {
    pub api_key_present: bool,
    pub x11_display_present: bool,
    pub x11_session_detected: bool,
    pub xdotool_present: bool,
    pub clipboard_tool: Option<ClipboardTool>,
    pub recorder: Option<RecorderKind>,
}

/// The reasons for which the environment cannot run the daemon.
#[derive(Debug, Clone, Copy, PartialEq, Eq, Structural)]
pub enum DependencyError {
    MissingApiKey,
    DisplayNotSet,
    NotX11Session,
    MissingXdotool,
    MissingClipboardTool,
    MissingRecorder,
}

impl DependencyError {
    /// The text of the error.
    pub open spec fn text(self) -> Seq<char> {
        match self {
            DependencyError::MissingApiKey => "missing ZHIPUAI_API_KEY"@,
            DependencyError::DisplayNotSet => "DISPLAY is not set"@,
            DependencyError::NotX11Session => "X11 session not detected; Wayland is unsupported"@,
            DependencyError::MissingXdotool => "missing xdotool"@,
            DependencyError::MissingClipboardTool => "missing clipboard tool; install xclip or xsel"@,
            DependencyError::MissingRecorder => "missing recorder; install ffmpeg or arecord"@,
        }
    }

    /// The text of the error, as it is reported.
    pub fn message(&self) -> (s: String)
        ensures
            s@ == self.text(),
    {
        match self {
            DependencyError::MissingApiKey => String::from_str("missing ZHIPUAI_API_KEY"),
            DependencyError::DisplayNotSet => String::from_str("DISPLAY is not set"),
            DependencyError::NotX11Session => String::from_str(
                "X11 session not detected; Wayland is unsupported",
            ),
            DependencyError::MissingXdotool => String::from_str("missing xdotool"),
            DependencyError::MissingClipboardTool => String::from_str(
                "missing clipboard tool; install xclip or xsel",
            ),
            DependencyError::MissingRecorder => String::from_str(
                "missing recorder; install ffmpeg or arecord",
            ),
        }
    }
}

/// A value is blank when it has only whitespace (`str::trim` leaves it empty).
pub open spec fn is_blank(s: Seq<char>) -> bool {
    forall|i: int| 0 <= i < s.len() ==> is_unicode_whitespace(#[trigger] s[i])
}

/// A session type says X11 when it is empty or "x11" in any ASCII case.
pub open spec fn is_x11_session(session_type: Seq<char>) -> bool {
    session_type.len() == 0 || eq_ignore_ascii_case(session_type, seq!['x', '1', '1'])
}

/// ffmpeg is preferred to arecord.
pub open spec fn preferred_recorder(ffmpeg: bool, arecord: bool) -> Option<RecorderKind> {
    if ffmpeg {
        Some(RecorderKind::Ffmpeg)
    } else if arecord {
        Some(RecorderKind::Arecord)
    } else {
        None
    }
}

/// xclip is preferred to xsel.
pub open spec fn preferred_clipboard_tool(xclip: bool, xsel: bool) -> Option<ClipboardTool> {
    if xclip {
        Some(ClipboardTool::Xclip)
    } else if xsel {
        Some(ClipboardTool::Xsel)
    } else {
        None
    }
}

/// A variable counts as set when it is present and not blank.
pub open spec fn is_set(value: Option<Seq<char>>) -> bool {
    match value {
        Some(v) => !is_blank(v),
        None => false,
    }
}

/// The report that the probed values give.
pub open spec fn report_of(
    api_key: Option<Seq<char>>,
    display: Option<Seq<char>>,
    session_type: Seq<char>,
    tools: ToolAvailability,
) -> DependencyReport {
    DependencyReport {
        api_key_present: is_set(api_key),
        x11_display_present: is_set(display),
        x11_session_detected: is_x11_session(session_type),
        xdotool_present: tools.xdotool,
        clipboard_tool: preferred_clipboard_tool(tools.xclip, tools.xsel),
        recorder: preferred_recorder(tools.ffmpeg, tools.arecord),
    }
}

/// The view of an optional string.
pub open spec fn opt_view(s: Option<&str>) -> Option<Seq<char>> {
    match s {
        Some(v) => Some(v@),
        None => None,
    }
}

/// Whether `s` has only whitespace.
pub fn is_blank_str(s: &str) -> (r: bool)
    ensures
        r == is_blank(s@),
{
    let v = chars_of(s);
    let mut i: usize = 0;
    while i < v.len()
        invariant
            v@ == s@,
            i <= v.len(),
            forall|j: int| 0 <= j < i ==> is_unicode_whitespace(#[trigger] v@[j]),
        decreases v.len() - i,
    {
        if !is_whitespace(v[i]) {
            return false;
        }
        i += 1;
    }
    true
}

/// Whether a session type names an X11 session.
pub fn is_x11_session_type(session_type: &str) -> (r: bool)
    ensures
        r == is_x11_session(session_type@),
        session_type@.len() == 0 ==> r,
        eq_ignore_ascii_case(session_type@, seq!['x', '1', '1']) ==> r,
{
    proof {
        lemma_x11_session_ignores_case(session_type@, seq!['x', '1', '1']);
    }
    let v = chars_of(session_type);
    if v.len() == 0 {
        return true;
    }
    if v.len() != 3 {
        return false;
    }
    let a = lower_code(v[0]) == lower_code('x');
    let b = lower_code(v[1]) == lower_code('1');
    let c = lower_code(v[2]) == lower_code('1');
    proof {
        let t = seq!['x', '1', '1'];
        if a && b && c {
            assert forall|i: int| 0 <= i < 3 implies crate::text::ascii_lower_code(#[trigger] v@[i])
                == crate::text::ascii_lower_code(t[i]) by {}
        } else {
            if !a {
                assert(crate::text::ascii_lower_code(v@[0]) != crate::text::ascii_lower_code(t[0]));
            } else if !b {
                assert(crate::text::ascii_lower_code(v@[1]) != crate::text::ascii_lower_code(t[1]));
            } else {
                assert(crate::text::ascii_lower_code(v@[2]) != crate::text::ascii_lower_code(t[2]));
            }
        }
    }
    a && b && c
}

/// The recorder to use among those found: ffmpeg, else arecord.
pub fn select_recorder(ffmpeg: bool, arecord: bool) -> (r: Option<RecorderKind>)
    ensures
        r == preferred_recorder(ffmpeg, arecord),
{
    if ffmpeg {
        Some(RecorderKind::Ffmpeg)
    } else if arecord {
        Some(RecorderKind::Arecord)
    } else {
        None
    }
}

/// The clipboard tool to use among those found: xclip, else xsel.
pub fn select_clipboard_tool(xclip: bool, xsel: bool) -> (r: Option<ClipboardTool>)
    ensures
        r == preferred_clipboard_tool(xclip, xsel),
{
    if xclip {
        Some(ClipboardTool::Xclip)
    } else if xsel {
        Some(ClipboardTool::Xsel)
    } else {
        None
    }
}

/// Builds the report from the probed environment: the values of
/// `ZHIPUAI_API_KEY` and `DISPLAY` (`None` when unset), `XDG_SESSION_TYPE`
/// (empty when unset) and which programs were found.
pub fn dependency_report_from(
    api_key: Option<&str>,
    display: Option<&str>,
    session_type: &str,
    tools: &ToolAvailability,
) -> (r: DependencyReport)
    ensures
        r == report_of(opt_view(api_key), opt_view(display), session_type@, *tools),
        r.api_key_present <==> has_visible_char(opt_view(api_key)),
        r.x11_display_present <==> has_visible_char(opt_view(display)),
        r.xdotool_present == tools.xdotool,
        tools.ffmpeg ==> r.recorder == Some(RecorderKind::Ffmpeg),
        !tools.ffmpeg && tools.arecord ==> r.recorder == Some(RecorderKind::Arecord),
        r.recorder is None <==> !tools.ffmpeg && !tools.arecord,
        tools.xclip ==> r.clipboard_tool == Some(ClipboardTool::Xclip),
        !tools.xclip && tools.xsel ==> r.clipboard_tool == Some(ClipboardTool::Xsel),
        r.clipboard_tool is None <==> !tools.xclip && !tools.xsel,
{
    proof {
        lemma_report_follows_probe(opt_view(api_key), opt_view(display), session_type@, *tools);
    }
    let api_key_present = match api_key {
        Some(v) => !is_blank_str(v),
        None => false,
    };
    let x11_display_present = match display {
        Some(v) => !is_blank_str(v),
        None => false,
    };
    DependencyReport {
        api_key_present,
        x11_display_present,
        x11_session_detected: is_x11_session_type(session_type),
        xdotool_present: tools.xdotool,
        clipboard_tool: select_clipboard_tool(tools.xclip, tools.xsel),
        recorder: select_recorder(tools.ffmpeg, tools.arecord),
    }
}

impl DependencyReport {
    /// The first thing, in the order of the checks, that stops the daemon.
    pub open spec fn first_problem(self, require_api_key: bool) -> Option<DependencyError> {
        if require_api_key && !self.api_key_present {
            Some(DependencyError::MissingApiKey)
        } else if !self.x11_display_present {
            Some(DependencyError::DisplayNotSet)
        } else if !self.x11_session_detected {
            Some(DependencyError::NotX11Session)
        } else if !self.xdotool_present {
            Some(DependencyError::MissingXdotool)
        } else if self.clipboard_tool is None {
            Some(DependencyError::MissingClipboardTool)
        } else if self.recorder is None {
            Some(DependencyError::MissingRecorder)
        } else {
            None
        }
    }

    /// Whether everything the doctor checks is present.
    pub open spec fn all_present(self) -> bool {
        &&& self.api_key_present
        &&& self.x11_display_present
        &&& self.x11_session_detected
        &&& self.xdotool_present
        &&& self.clipboard_tool is Some
        &&& self.recorder is Some
    }

    /// Checks that the daemon can run: `Ok` when nothing is missing, else the
    /// first problem found, the API key being checked only when required.
    pub fn validate(&self, require_api_key: bool) -> (r: Result<(), DependencyError>)
        ensures
            r == (match self.first_problem(require_api_key) {
                None => Ok(()),
                Some(e) => Err(e),
            }),
            r is Ok <==> ((require_api_key ==> self.api_key_present) && self.x11_display_present
                && self.x11_session_detected && self.xdotool_present && self.clipboard_tool is Some
                && self.recorder is Some),
            r == Err::<(), DependencyError>(DependencyError::MissingApiKey) ==> require_api_key
                && !self.api_key_present,
            r == Err::<(), DependencyError>(DependencyError::DisplayNotSet)
                ==> !self.x11_display_present,
            r == Err::<(), DependencyError>(DependencyError::NotX11Session)
                ==> !self.x11_session_detected,
            r == Err::<(), DependencyError>(DependencyError::MissingXdotool)
                ==> !self.xdotool_present,
            r == Err::<(), DependencyError>(DependencyError::MissingClipboardTool)
                ==> self.clipboard_tool is None,
            r == Err::<(), DependencyError>(DependencyError::MissingRecorder)
                ==> self.recorder is None,
    {
        proof {
            lemma_validate_requires_every_piece(*self, require_api_key);
        }
        if require_api_key && !self.api_key_present {
            return Err(DependencyError::MissingApiKey);
        }
        if !self.x11_display_present {
            return Err(DependencyError::DisplayNotSet);
        }
        if !self.x11_session_detected {
            return Err(DependencyError::NotX11Session);
        }
        if !self.xdotool_present {
            return Err(DependencyError::MissingXdotool);
        }
        if self.clipboard_tool.is_none() {
            return Err(DependencyError::MissingClipboardTool);
        }
        if self.recorder.is_none() {
            return Err(DependencyError::MissingRecorder);
        }
        Ok(())
    }
}

/// The text for a condition in the doctor's report.
pub open spec fn status(value: bool, ok: Seq<char>, fail: Seq<char>) -> Seq<char> {
    if value {
        ok
    } else {
        fail
    }
}

/// The name of a clipboard tool, or "missing".
pub open spec fn clipboard_text(tool: Option<ClipboardTool>) -> Seq<char> {
    match tool {
        Some(t) => t.name(),
        None => "missing"@,
    }
}

/// The name of a recorder, or "missing".
pub open spec fn recorder_text(kind: Option<RecorderKind>) -> Seq<char> {
    match kind {
        Some(k) => k.name(),
        None => "missing"@,
    }
}

/// `line` when `cond` holds, else nothing.
pub open spec fn line_if(cond: bool, line: Seq<char>) -> Seq<Seq<char>> {
    if cond {
        seq![line]
    } else {
        seq![]
    }
}

/// The lines the doctor prints: one status line per check, then one hint per
/// missing piece.
pub open spec fn doctor_lines(r: DependencyReport) -> Seq<Seq<char>> {
    seq![
        "ZHIPUAI_API_KEY: "@ + status(r.api_key_present, "ok"@, "missing"@),
        "DISPLAY: "@ + status(r.x11_display_present, "ok"@, "missing"@),
        "X11 session: "@ + status(r.x11_session_detected, "ok"@, "not detected"@),
        "xdotool: "@ + status(r.xdotool_present, "ok"@, "missing"@),
        "clipboard tool: "@ + clipboard_text(r.clipboard_tool),
        "recorder: "@ + recorder_text(r.recorder),
    ] + line_if(!r.api_key_present, "hint: export ZHIPUAI_API_KEY=..."@) + line_if(
        !r.xdotool_present,
        "hint: install xdotool"@,
    ) + line_if(r.clipboard_tool is None, "hint: install xclip or xsel"@) + line_if(
        r.recorder is None,
        "hint: install ffmpeg or alsa-utils"@,
    ) + line_if(
        !r.x11_display_present || !r.x11_session_detected,
        "hint: run under an X11 desktop session"@,
    )
}

/// The views of a list of strings.
pub open spec fn views(v: Seq<String>) -> Seq<Seq<char>> {
    v.map_values(|s: String| s@)
}

/// Returns the text that stands for a condition in the doctor's report.
pub fn status_text<'a>(value: bool, ok: &'a str, fail: &'a str) -> (r: &'a str)
    ensures
        r@ == status(value, ok@, fail@),
{
    if value {
        ok
    } else {
        fail
    }
}

/// Pushes `line` when `cond` holds.
fn push_line_if(lines: &mut Vec<String>, cond: bool, line: &str)
    ensures
        views(final(lines)@) == views(old(lines)@) + line_if(cond, line@),
{
    let ghost before = views(lines@);
    if cond {
        lines.push(String::from_str(line));
        assert(views(lines@) =~= before + seq![line@]);
    } else {
        assert(views(lines@) =~= before + seq![]);
    }
}

/// The doctor's verdict and the lines it prints for a report: the verdict is
/// `true` when everything is present.
pub fn doctor_output(report: &DependencyReport) -> (r: (bool, Vec<String>))
    ensures
        r.0 == report.all_present(),
        views(r.1@) == doctor_lines(*report),
        r.0 <==> (report.api_key_present && report.x11_display_present
            && report.x11_session_detected && report.xdotool_present && report.clipboard_tool is Some
            && report.recorder is Some),
        views(r.1@)[0] == (if report.api_key_present {
            "ZHIPUAI_API_KEY: ok"@
        } else {
            "ZHIPUAI_API_KEY: missing"@
        }),
        views(r.1@)[1] == (if report.x11_display_present {
            "DISPLAY: ok"@
        } else {
            "DISPLAY: missing"@
        }),
        views(r.1@)[2] == (if report.x11_session_detected {
            "X11 session: ok"@
        } else {
            "X11 session: not detected"@
        }),
        views(r.1@)[3] == (if report.xdotool_present {
            "xdotool: ok"@
        } else {
            "xdotool: missing"@
        }),
{
    proof {
        lemma_doctor_status_lines(*report);
    }
    let recorder = match report.recorder {
        Some(kind) => kind.to_string(),
        None => String::from_str("missing"),
    };
    let clipboard_tool = match report.clipboard_tool {
        Some(tool) => tool.to_string(),
        None => String::from_str("missing"),
    };
    let ok = report.api_key_present && report.x11_display_present && report.x11_session_detected
        && report.xdotool_present && report.clipboard_tool.is_some() && report.recorder.is_some();

    let mut lines: Vec<String> = Vec::new();
    lines.push(
        String::from_str("ZHIPUAI_API_KEY: ").concat(
            status_text(report.api_key_present, "ok", "missing"),
        ),
    );
    lines.push(
        String::from_str("DISPLAY: ").concat(
            status_text(report.x11_display_present, "ok", "missing"),
        ),
    );
    lines.push(
        String::from_str("X11 session: ").concat(
            status_text(report.x11_session_detected, "ok", "not detected"),
        ),
    );
    lines.push(
        String::from_str("xdotool: ").concat(status_text(report.xdotool_present, "ok", "missing")),
    );
    lines.push(String::from_str("clipboard tool: ").concat(clipboard_tool.as_str()));
    lines.push(String::from_str("recorder: ").concat(recorder.as_str()));
    let ghost base = views(lines@);
    assert(base =~= seq![
        "ZHIPUAI_API_KEY: "@ + status(report.api_key_present, "ok"@, "missing"@),
        "DISPLAY: "@ + status(report.x11_display_present, "ok"@, "missing"@),
        "X11 session: "@ + status(report.x11_session_detected, "ok"@, "not detected"@),
        "xdotool: "@ + status(report.xdotool_present, "ok"@, "missing"@),
        "clipboard tool: "@ + clipboard_text(report.clipboard_tool),
        "recorder: "@ + recorder_text(report.recorder),
    ]);

    push_line_if(&mut lines, !report.api_key_present, "hint: export ZHIPUAI_API_KEY=...");
    push_line_if(&mut lines, !report.xdotool_present, "hint: install xdotool");
    push_line_if(&mut lines, report.clipboard_tool.is_none(), "hint: install xclip or xsel");
    push_line_if(&mut lines, report.recorder.is_none(), "hint: install ffmpeg or alsa-utils");
    push_line_if(
        &mut lines,
        !report.x11_display_present || !report.x11_session_detected,
        "hint: run under an X11 desktop session",
    );
    (ok, lines)
}

/// The doctor passes exactly when the daemon's own check, with the API key
/// required, finds nothing missing.
pub proof fn lemma_doctor_agrees_with_validate(report: DependencyReport)
    ensures
        report.all_present() <==> report.first_problem(true) is None,
{
}

/// A report that passes with the API key required also passes without it.
pub proof fn lemma_validate_weaker_without_api_key(report: DependencyReport)
    ensures
        report.first_problem(true) is None ==> report.first_problem(false) is None,
{
}

/// The daemon's check passes exactly when every piece is present: the API key
/// (when required), DISPLAY, an X11 session, xdotool, a clipboard tool and a
/// recorder. Each error names a piece that is missing.
pub proof fn lemma_validate_requires_every_piece(report: DependencyReport, require_api_key: bool)
    ensures
        report.first_problem(require_api_key) is None <==> ((require_api_key
            ==> report.api_key_present) && report.x11_display_present
            && report.x11_session_detected && report.xdotool_present && report.clipboard_tool is Some
            && report.recorder is Some),
        report.first_problem(require_api_key) == Some(DependencyError::MissingApiKey) ==> require_api_key
            && !report.api_key_present,
        report.first_problem(require_api_key) == Some(DependencyError::DisplayNotSet)
            ==> !report.x11_display_present,
        report.first_problem(require_api_key) == Some(DependencyError::NotX11Session)
            ==> !report.x11_session_detected,
        report.first_problem(require_api_key) == Some(DependencyError::MissingXdotool)
            ==> !report.xdotool_present,
        report.first_problem(require_api_key) == Some(DependencyError::MissingClipboardTool)
            ==> report.clipboard_tool is None,
        report.first_problem(require_api_key) == Some(DependencyError::MissingRecorder)
            ==> report.recorder is None,
        report.all_present() <==> (report.api_key_present && report.x11_display_present
            && report.x11_session_detected && report.xdotool_present && report.clipboard_tool is Some
            && report.recorder is Some),
{
}

/// Each of the doctor's first four lines reports its own condition, "ok" when
/// it holds, whatever the other conditions are.
pub proof fn lemma_doctor_status_lines(r: DependencyReport)
    ensures
        doctor_lines(r)[0] == (if r.api_key_present {
            "ZHIPUAI_API_KEY: ok"@
        } else {
            "ZHIPUAI_API_KEY: missing"@
        }),
        doctor_lines(r)[1] == (if r.x11_display_present {
            "DISPLAY: ok"@
        } else {
            "DISPLAY: missing"@
        }),
        doctor_lines(r)[2] == (if r.x11_session_detected {
            "X11 session: ok"@
        } else {
            "X11 session: not detected"@
        }),
        doctor_lines(r)[3] == (if r.xdotool_present {
            "xdotool: ok"@
        } else {
            "xdotool: missing"@
        }),
{
    reveal_strlit("ok");
    reveal_strlit("missing");
    reveal_strlit("not detected");
    reveal_strlit("ZHIPUAI_API_KEY: ");
    reveal_strlit("ZHIPUAI_API_KEY: ok");
    reveal_strlit("ZHIPUAI_API_KEY: missing");
    reveal_strlit("DISPLAY: ");
    reveal_strlit("DISPLAY: ok");
    reveal_strlit("DISPLAY: missing");
    reveal_strlit("X11 session: ");
    reveal_strlit("X11 session: ok");
    reveal_strlit("X11 session: not detected");
    reveal_strlit("xdotool: ");
    reveal_strlit("xdotool: ok");
    reveal_strlit("xdotool: missing");
    assert("ZHIPUAI_API_KEY: "@ + "ok"@ =~= "ZHIPUAI_API_KEY: ok"@);
    assert("ZHIPUAI_API_KEY: "@ + "missing"@ =~= "ZHIPUAI_API_KEY: missing"@);
    assert("DISPLAY: "@ + "ok"@ =~= "DISPLAY: ok"@);
    assert("DISPLAY: "@ + "missing"@ =~= "DISPLAY: missing"@);
    assert("X11 session: "@ + "ok"@ =~= "X11 session: ok"@);
    assert("X11 session: "@ + "not detected"@ =~= "X11 session: not detected"@);
    assert("xdotool: "@ + "ok"@ =~= "xdotool: ok"@);
    assert("xdotool: "@ + "missing"@ =~= "xdotool: missing"@);
}

/// The session check ignores ASCII case: session types equal up to ASCII case
/// are both X11 or both not, and any spelling of "x11" is X11, as is an unset
/// (empty) session type.
pub proof fn lemma_x11_session_ignores_case(a: Seq<char>, b: Seq<char>)
    ensures
        eq_ignore_ascii_case(a, b) ==> is_x11_session(a) == is_x11_session(b),
        eq_ignore_ascii_case(a, seq!['x', '1', '1']) ==> is_x11_session(a),
        a.len() == 0 ==> is_x11_session(a),
{
    let t = seq!['x', '1', '1'];
    if eq_ignore_ascii_case(a, b) {
        if is_x11_session(a) && a.len() > 0 {
            assert forall|i: int| 0 <= i < b.len() implies crate::text::ascii_lower_code(#[trigger] b[i])
                == crate::text::ascii_lower_code(t[i]) by {
                assert(crate::text::ascii_lower_code(a[i]) == crate::text::ascii_lower_code(b[i]));
                assert(crate::text::ascii_lower_code(a[i]) == crate::text::ascii_lower_code(t[i]));
            }
        }
        if is_x11_session(b) && b.len() > 0 {
            assert forall|i: int| 0 <= i < a.len() implies crate::text::ascii_lower_code(#[trigger] a[i])
                == crate::text::ascii_lower_code(t[i]) by {
                assert(crate::text::ascii_lower_code(a[i]) == crate::text::ascii_lower_code(b[i]));
                assert(crate::text::ascii_lower_code(b[i]) == crate::text::ascii_lower_code(t[i]));
            }
        }
    }
}

/// A value that is present and holds a character that is not whitespace.
pub open spec fn has_visible_char(value: Option<Seq<char>>) -> bool {
    match value {
        Some(v) => exists|i: int| 0 <= i < v.len() && !is_unicode_whitespace(#[trigger] v[i]),
        None => false,
    }
}

/// The report follows what was probed: a variable counts as set when it holds
/// a character other than whitespace; ffmpeg is used whenever it is found,
/// arecord only without it, and there is no recorder only when neither is
/// found; xclip and xsel likewise.
pub proof fn lemma_report_follows_probe(
    api_key: Option<Seq<char>>,
    display: Option<Seq<char>>,
    session_type: Seq<char>,
    tools: ToolAvailability,
)
    ensures
        ({
            let r = report_of(api_key, display, session_type, tools);
            &&& r.api_key_present <==> has_visible_char(api_key)
            &&& r.x11_display_present <==> has_visible_char(display)
            &&& r.xdotool_present == tools.xdotool
            &&& tools.ffmpeg ==> r.recorder == Some(RecorderKind::Ffmpeg)
            &&& !tools.ffmpeg && tools.arecord ==> r.recorder == Some(RecorderKind::Arecord)
            &&& r.recorder is None <==> !tools.ffmpeg && !tools.arecord
            &&& tools.xclip ==> r.clipboard_tool == Some(ClipboardTool::Xclip)
            &&& !tools.xclip && tools.xsel ==> r.clipboard_tool == Some(ClipboardTool::Xsel)
            &&& r.clipboard_tool is None <==> !tools.xclip && !tools.xsel
        }),
{
}

} // verus!
