//! Installing the Python environment and the CUDA wheels: the commands
//! that run, the lines that go to the log, and what the progress poll
//! makes of each message.  The application runs the processes and a
//! timer that polls the channel.
use vstd::prelude::*;
use crate::number::{format_i64, signed_decimal};
use crate::paths::{join_path, join_path_exec};
use crate::text::{chars_of, concat_lit, extend_chars, join, join_exec, string_from, surround, views};

verus! {

/// A message from an install thread to the page that shows its progress.
pub enum InstallMsg {
    /// A line of output.
    Line(String),
    /// The install finished successfully.
    Done,
    /// The install failed.
    Error(String),
}

/// What the progress poll does with one message.
pub enum InstallEvent {
    /// Append the line to the log and keep polling.
    Log(String),
    /// Stop polling; a failed install first logs its error line.
    Finished { failed: bool, log: Option<String> },
}

/// One message: a line is logged, `Done` finishes, an error finishes after
/// logging `✗ FEHLER:` and the error on a line of its own.
pub fn on_install_message(msg: InstallMsg) -> (e: InstallEvent)
    ensures
        match msg {
            InstallMsg::Line(l) => e matches InstallEvent::Log(x) && x == l,
            InstallMsg::Done => e matches InstallEvent::Finished { failed, log } && !failed
                && log is None,
            InstallMsg::Error(m) => e matches InstallEvent::Finished { failed, log } && failed
                && (log matches Some(x) && x@ == "\n✗ FEHLER: "@ + m@),
        },
{
    match msg {
        InstallMsg::Line(l) => InstallEvent::Log(l),
        InstallMsg::Done => InstallEvent::Finished { failed: false, log: None },
        InstallMsg::Error(m) => InstallEvent::Finished {
            failed: true,
            log: Some(concat_lit("\n✗ FEHLER: ", chars_of(m.as_str()).as_slice())),
        },
    }
}

/// The label of the button that starts an install again after a failure.
pub fn retry_label() -> (s: &'static str)
    ensures
        s@ == "Erneut versuchen"@,
{
    "Erneut versuchen"
}

// ───────────────────────────── Python environment ─────────────────────────────

/// One step of the environment install: its name and its command line.
pub struct InstallStep {
    pub label: &'static str,
    pub argv: Vec<String>,
}

/// The steps that set up the environment at `venv`: create it, update
/// pip, install faster-whisper and websockets.
pub fn venv_install_steps(venv: &str) -> (steps: Vec<InstallStep>)
    ensures
        steps@.len() == 3,
        steps@[0].label@ == "venv anlegen"@,
        views_of(steps@[0].argv@) == seq!["python3"@, "-m"@, "venv"@, venv@],
        steps@[1].label@ == "pip aktualisieren"@,
        views_of(steps@[1].argv@) == seq![join_path(venv@, "bin/pip"@), "install"@, "--upgrade"@, "pip"@],
        steps@[2].label@ == "faster-whisper installieren"@,
        views_of(steps@[2].argv@) == seq![join_path(venv@, "bin/pip"@), "install"@, "faster-whisper"@, "websockets"@],
{
    let pip = string_from(join_path_exec(chars_of(venv).as_slice(), chars_of("bin/pip").as_slice()).as_slice());
    let mut a0: Vec<String> = Vec::new();
    a0.push(owned("python3"));
    a0.push(owned("-m"));
    a0.push(owned("venv"));
    a0.push(owned(venv));
    let mut a1: Vec<String> = Vec::new();
    a1.push(owned(pip.as_str()));
    a1.push(owned("install"));
    a1.push(owned("--upgrade"));
    a1.push(owned("pip"));
    let mut a2: Vec<String> = Vec::new();
    a2.push(owned(pip.as_str()));
    a2.push(owned("install"));
    a2.push(owned("faster-whisper"));
    a2.push(owned("websockets"));
    let mut steps: Vec<InstallStep> = Vec::new();
    steps.push(InstallStep { label: "venv anlegen", argv: a0 });
    steps.push(InstallStep { label: "pip aktualisieren", argv: a1 });
    steps.push(InstallStep { label: "faster-whisper installieren", argv: a2 });
    proof {
        assert(views_of(steps@[0].argv@) =~= seq!["python3"@, "-m"@, "venv"@, venv@]);
        assert(views_of(steps@[1].argv@) =~= seq![join_path(venv@, "bin/pip"@), "install"@, "--upgrade"@, "pip"@]);
        assert(views_of(steps@[2].argv@) =~= seq![join_path(venv@, "bin/pip"@), "install"@, "faster-whisper"@, "websockets"@]);
    }
    steps
}

/// The texts of a sequence of strings.
pub open spec fn views_of(v: Seq<String>) -> Seq<Seq<char>> {
    v.map_values(|s: String| s@)
}

fn owned(s: &str) -> (out: String)
    ensures
        out@ == s@,
{
    string_from(chars_of(s).as_slice())
}

/// The two log lines before a step runs: `$ # <label>` and `$ <command>`.
pub fn step_announcement(step: &InstallStep) -> (lines: (String, String))
    ensures
        lines.0@ == "$ # "@ + step.label@,
        lines.1@ == "$ "@ + join(views_of(step.argv@), " "@),
{
    let first = concat_lit("$ # ", chars_of(step.label).as_slice());
    let mut parts: Vec<Vec<char>> = Vec::new();
    let mut i: usize = 0;
    while i < step.argv.len()
        invariant
            i <= step.argv@.len(),
            parts@.len() == i,
            forall|j: int| 0 <= j < i ==> (#[trigger] parts@[j])@ == step.argv@[j]@,
        decreases step.argv@.len() - i,
    {
        parts.push(chars_of(step.argv[i].as_str()));
        i = i + 1;
    }
    assert(views(parts@) =~= views_of(step.argv@));
    let second = concat_lit("$ ", join_exec(parts.as_slice(), chars_of(" ").as_slice()).as_slice());
    (first, second)
}

/// How a started process ended, or why it could not be run or waited for.
pub enum ProcessOutcome {
    Exited { success: bool, code: Option<i32> },
    Failed(String),
}

/// The exit code shown for a process: its code, or -1 when a signal ended it.
pub open spec fn shown_code(code: Option<i32>) -> int {
    match code {
        Some(c) => c as int,
        None => -1,
    }
}

fn shown_code_exec(code: Option<i32>) -> (out: Vec<char>)
    ensures
        out@ == signed_decimal(shown_code(code)),
{
    match code {
        Some(c) => format_i64(c as i64),
        None => format_i64(-1),
    }
}

/// The error that ends the environment install after step `label`, or
/// `None` when the step succeeded and the install goes on.
pub fn step_error(label: &str, outcome: ProcessOutcome) -> (r: Option<String>)
    ensures
        match outcome {
            ProcessOutcome::Exited { success, code } => if success {
                r is None
            } else {
                r matches Some(m) && m@ == label@ + ": exit "@ + signed_decimal(shown_code(code))
            },
            ProcessOutcome::Failed(e) => r matches Some(m) && m@ == label@ + ": "@ + e@,
        },
{
    match outcome {
        ProcessOutcome::Exited { success, code } => {
            if success {
                None
            } else {
                let mut v = chars_of(label);
                extend_chars(&mut v, chars_of(": exit ").as_slice());
                extend_chars(&mut v, shown_code_exec(code).as_slice());
                Some(string_from(v.as_slice()))
            }
        },
        ProcessOutcome::Failed(e) => Some(surround(label, ": ", e.as_str())),
    }
}

/// The error when the directory that holds the environment cannot be made.
pub fn mkdir_error(parent: &str, err: &str) -> (m: String)
    ensures
        m@ == "mkdir "@ + parent@ + ": "@ + err@,
{
    let mut v = chars_of("mkdir ");
    extend_chars(&mut v, chars_of(parent).as_slice());
    extend_chars(&mut v, chars_of(": ").as_slice());
    extend_chars(&mut v, chars_of(err).as_slice());
    string_from(v.as_slice())
}

/// The last two log lines of a successful environment install.
pub fn venv_install_success_line() -> (s: &'static str)
    ensures
        s@ == "✓ Successfully installed vooox dependencies."@,
{
    "✓ Successfully installed vooox dependencies."
}

// ───────────────────────────── CUDA wheels ─────────────────────────────

/// The error when the environment has no `pip` at `pip`.
pub fn pip_missing_error(pip: &str) -> (m: String)
    ensures
        m@ == "pip nicht gefunden unter "@ + pip@ + " — Setup zuerst abschließen."@,
{
    surround("pip nicht gefunden unter ", pip, " — Setup zuerst abschließen.")
}

/// What the CUDA install reports when pip ended with `outcome`; `spawned`
/// tells whether the failure came when starting pip or when waiting for it.
pub fn cuda_install_result(spawned: bool, outcome: ProcessOutcome) -> (msg: InstallMsg)
    ensures
        match outcome {
            ProcessOutcome::Exited { success, code } => if success {
                msg is Done
            } else {
                msg matches InstallMsg::Error(m) && m@ == "pip install exit "@ + signed_decimal(
                    shown_code(code),
                )
            },
            ProcessOutcome::Failed(e) => msg matches InstallMsg::Error(m) && m@ == (if spawned {
                "pip wait: "@
            } else {
                "pip spawn: "@
            }) + e@,
        },
{
    match outcome {
        ProcessOutcome::Exited { success, code } => {
            if success {
                InstallMsg::Done
            } else {
                InstallMsg::Error(concat_lit("pip install exit ", shown_code_exec(code).as_slice()))
            }
        },
        ProcessOutcome::Failed(e) => {
            let prefix = if spawned {
                "pip wait: "
            } else {
                "pip spawn: "
            };
            InstallMsg::Error(concat_lit(prefix, chars_of(e.as_str()).as_slice()))
        },
    }
}

} // verus!
