//! The external programs the daemon runs: the recorder, the clipboard tool and
//! the key injector, with their arguments, how a recorder is stopped, the
//! modifier masks under which the hotkey is grabbed, and the form fields of a
//! transcription request.

use vstd::prelude::*;
use crate::report::{ClipboardTool, DependencyError, RecorderKind, preferred_clipboard_tool, select_clipboard_tool, views};

verus! {

/// A program to run and its arguments.
#[derive(Debug)]
pub struct CommandSpec {
    pub program: String,
    pub args: Vec<String>,
}

impl CommandSpec {
    /// The program's name.
    pub open spec fn program_view(&self) -> Seq<char> {
        self.program@
    }

    /// The arguments.
    pub open spec fn args_view(&self) -> Seq<Seq<char>> {
        views(self.args@)
    }
}

/// The arguments that record mono audio into the WAV file `output`.
pub open spec fn recorder_args(kind: RecorderKind, output: Seq<char>) -> Seq<Seq<char>> {
    match kind {
        RecorderKind::Ffmpeg => seq![
            "-hide_banner"@,
            "-loglevel"@,
            "error"@,
            "-y"@,
            "-f"@,
            "alsa"@,
            "-i"@,
            "default"@,
            "-ac"@,
            "1"@,
            "-f"@,
            "wav"@,
            output,
        ],
        RecorderKind::Arecord => seq![
            "-q"@,
            "-c"@,
            "1"@,
            "-f"@,
            "cd"@,
            "-t"@,
            "wav"@,
            output,
        ],
    }
}

/// The arguments that make a clipboard tool read the clipboard's new content
/// from its standard input.
pub open spec fn clipboard_args(tool: ClipboardTool) -> Seq<Seq<char>> {
    match tool {
        ClipboardTool::Xclip => seq!["-selection"@, "clipboard"@],
        ClipboardTool::Xsel => seq!["--clipboard"@, "--input"@],
    }
}

/// Appends `s` to `args`.
fn push_arg(args: &mut Vec<String>, s: &str)
    ensures
        views(final(args)@) == views(old(args)@).push(s@),
{
    let ghost before = views(args@);
    args.push(String::from_str(s));
    assert(views(args@) =~= before.push(s@));
}

/// The command that records from the default ALSA device into `output`.
pub fn recorder_command(kind: RecorderKind, output: &str) -> (c: CommandSpec)
    ensures
        c.program_view() == kind.name(),
        c.args_view() == recorder_args(kind, output@),
{
    let mut args: Vec<String> = Vec::new();
    assert(views(args@) =~= seq![]);
    match kind {
        RecorderKind::Ffmpeg => {
            push_arg(&mut args, "-hide_banner");
            push_arg(&mut args, "-loglevel");
            push_arg(&mut args, "error");
            push_arg(&mut args, "-y");
            push_arg(&mut args, "-f");
            push_arg(&mut args, "alsa");
            push_arg(&mut args, "-i");
            push_arg(&mut args, "default");
            push_arg(&mut args, "-ac");
            push_arg(&mut args, "1");
            push_arg(&mut args, "-f");
            push_arg(&mut args, "wav");
            push_arg(&mut args, output);
        },
        RecorderKind::Arecord => {
            push_arg(&mut args, "-q");
            push_arg(&mut args, "-c");
            push_arg(&mut args, "1");
            push_arg(&mut args, "-f");
            push_arg(&mut args, "cd");
            push_arg(&mut args, "-t");
            push_arg(&mut args, "wav");
            push_arg(&mut args, output);
        },
    }
    let c = CommandSpec { program: kind.to_string(), args };
    assert(c.args_view() =~= recorder_args(kind, output@));
    c
}

/// The command that sets the clipboard to what is written to its standard input.
pub fn clipboard_command(tool: ClipboardTool) -> (c: CommandSpec)
    ensures
        c.program_view() == tool.name(),
        c.args_view() == clipboard_args(tool),
{
    let mut args: Vec<String> = Vec::new();
    assert(views(args@) =~= seq![]);
    match tool {
        ClipboardTool::Xclip => {
            push_arg(&mut args, "-selection");
            push_arg(&mut args, "clipboard");
        },
        ClipboardTool::Xsel => {
            push_arg(&mut args, "--clipboard");
            push_arg(&mut args, "--input");
        },
    }
    let c = CommandSpec { program: tool.to_string(), args };
    assert(c.args_view() =~= clipboard_args(tool));
    c
}

/// The command that pastes the clipboard into the focused window: Ctrl+V typed
/// by xdotool with the modifiers held by the user cleared.
pub fn paste_command() -> (c: CommandSpec)
    ensures
        c.program_view() == "xdotool"@,
        c.args_view() == seq!["key"@, "--clearmodifiers"@, "ctrl+v"@],
{
    let mut args: Vec<String> = Vec::new();
    assert(views(args@) =~= seq![]);
    push_arg(&mut args, "key");
    push_arg(&mut args, "--clearmodifiers");
    push_arg(&mut args, "ctrl+v");
    let c = CommandSpec { program: String::from_str("xdotool"), args };
    assert(c.args_view() =~= seq!["key"@, "--clearmodifiers"@, "ctrl+v"@]);
    c
}

/// How a running recorder is asked to finish its file.
#[derive(Debug, Clone, Copy, PartialEq, Eq, Structural)]
pub enum StopMethod {
    /// Write "q\n" to its standard input (ffmpeg's own way to quit).
    SendQuit,
    /// Send it SIGINT.
    Interrupt,
}

/// ffmpeg with an open standard input is told to quit; any other recorder, or
/// ffmpeg without one, is interrupted.
pub open spec fn stop_method_for(kind: RecorderKind, has_stdin: bool) -> StopMethod {
    if kind == RecorderKind::Ffmpeg && has_stdin {
        StopMethod::SendQuit
    } else {
        StopMethod::Interrupt
    }
}

/// How to stop a recorder of kind `kind`, given whether its standard input is
/// still open.
pub fn stop_method(kind: RecorderKind, has_stdin: bool) -> (m: StopMethod)
    ensures
        m == stop_method_for(kind, has_stdin),
{
    match kind {
        RecorderKind::Ffmpeg => {
            if has_stdin {
                StopMethod::SendQuit
            } else {
                StopMethod::Interrupt
            }
        },
        RecorderKind::Arecord => StopMethod::Interrupt,
    }
}

/// What injecting `text` needs: nothing for empty text; otherwise the
/// clipboard tool to use (xclip, else xsel), or the error that none was found.
pub open spec fn injection_plan(text: Seq<char>, xclip: bool, xsel: bool) -> Result<
    Option<ClipboardTool>,
    DependencyError,
> {
    if text.len() == 0 {
        Ok(None)
    } else {
        match preferred_clipboard_tool(xclip, xsel) {
            Some(t) => Ok(Some(t)),
            None => Err(DependencyError::MissingClipboardTool),
        }
    }
}

/// Decides how a transcript is injected: `Ok(None)` when there is nothing to
/// paste, `Ok(Some(tool))` with the clipboard tool to use, or the error that no
/// clipboard tool was found.
pub fn plan_injection(text: &str, xclip: bool, xsel: bool) -> (r: Result<
    Option<ClipboardTool>,
    DependencyError,
>)
    ensures
        r == injection_plan(text@, xclip, xsel),
        text@.len() == 0 ==> r == Ok::<Option<ClipboardTool>, DependencyError>(None),
        text@.len() > 0 && xclip ==> r == Ok::<Option<ClipboardTool>, DependencyError>(
            Some(ClipboardTool::Xclip),
        ),
        text@.len() > 0 && !xclip && xsel ==> r == Ok::<Option<ClipboardTool>, DependencyError>(
            Some(ClipboardTool::Xsel),
        ),
        r is Err <==> text@.len() > 0 && !xclip && !xsel,
{
    proof {
        lemma_injection_prefers_xclip(text@, xclip, xsel);
    }
    if text.is_empty() {
        return Ok(None);
    }
    match select_clipboard_tool(xclip, xsel) {
        Some(t) => Ok(Some(t)),
        None => Err(DependencyError::MissingClipboardTool),
    }
}

/// Reads the bits of x11rb's `ModMask::LOCK` and `ModMask::M2` (Caps Lock and,
/// on common layouts, Num Lock) through `ModMask::bits`; the contract claims
/// the values that x11rb's source gives these constants, `1 << 1` and `1 << 4`.
#[verifier::external_body]
fn lock_modifier_bits() -> (r: (u16, u16))
    ensures
        r == (2u16, 16u16),
{
    (x11rb::protocol::xproto::ModMask::LOCK.bits(), x11rb::protocol::xproto::ModMask::M2.bits())
}

/// The modifier states under which the hotkey is grabbed, so that Caps Lock and
/// Num Lock do not stop it from working: none, Lock, M2, and both.
pub fn modifier_variants() -> (r: [u16; 4])
    ensures
        r@ == seq![0u16, 2u16, 16u16, 18u16],
{
    let (lock, num) = lock_modifier_bits();
    let both = lock | num;
    assert(2u16 | 16u16 == 18u16) by (bit_vector);
    let r = [0u16, lock, num, both];
    assert(r@ =~= seq![0u16, 2u16, 16u16, 18u16]);
    r
}

/// The fields of a transcription request besides the audio: the model, no
/// streaming, and the request's id.
pub open spec fn form_fields(request_id: Seq<char>) -> Seq<(Seq<char>, Seq<char>)> {
    seq![("model"@, "glm-asr-2512"@), ("stream"@, "false"@), ("request_id"@, request_id)]
}

/// The view of a list of name and value pairs.
pub open spec fn pair_views(v: Seq<(String, String)>) -> Seq<(Seq<char>, Seq<char>)> {
    v.map_values(|p: (String, String)| (p.0@, p.1@))
}

/// The text fields of the multipart form sent to the transcription API.
pub fn transcription_form_fields(request_id: &str) -> (r: Vec<(String, String)>)
    ensures
        pair_views(r@) == form_fields(request_id@),
{
    let mut r: Vec<(String, String)> = Vec::new();
    r.push((String::from_str("model"), String::from_str("glm-asr-2512")));
    r.push((String::from_str("stream"), String::from_str("false")));
    r.push((String::from_str("request_id"), String::from_str(request_id)));
    assert(pair_views(r@) =~= form_fields(request_id@));
    r
}

/// Injecting text pastes through xclip whenever xclip is found, through xsel
/// when only xsel is, fails only when neither is found, and does nothing for
/// empty text.
pub proof fn lemma_injection_prefers_xclip(text: Seq<char>, xclip: bool, xsel: bool)
    ensures
        text.len() == 0 ==> injection_plan(text, xclip, xsel) == Ok::<
            Option<ClipboardTool>,
            DependencyError,
        >(None),
        text.len() > 0 && xclip ==> injection_plan(text, xclip, xsel) == Ok::<
            Option<ClipboardTool>,
            DependencyError,
        >(Some(ClipboardTool::Xclip)),
        text.len() > 0 && !xclip && xsel ==> injection_plan(text, xclip, xsel) == Ok::<
            Option<ClipboardTool>,
            DependencyError,
        >(Some(ClipboardTool::Xsel)),
        injection_plan(text, xclip, xsel) is Err <==> text.len() > 0 && !xclip && !xsel,
{
}

} // verus!
