//! The lines and messages that running a command produces, the records
//! the desktop front end emits, and the decision taken after a command.
use vstd::prelude::*;
use vstd::string::*;

use crate::install::FailurePolicy;
use crate::text::{join, join_strings, push_signed_decimal, signed_decimal, views};

verus! {

// ---------------------------------------------------------------------
// Specification
// ---------------------------------------------------------------------

/// The log line that announces a command: `$`, the program, then its
/// arguments separated by spaces.
pub open spec fn command_line(program: Seq<char>, args: Seq<Seq<char>>) -> Seq<char> {
    "$ "@ + program + " "@ + join(args, " "@)
}

pub open spec fn finished_line(program: Seq<char>) -> Seq<char> {
    "✓ "@ + program + " finalizado"@
}

pub open spec fn error_output_line(line: Seq<char>) -> Seq<char> {
    "[ERROR] "@ + line
}

pub open spec fn fatal_line(error: Seq<char>) -> Seq<char> {
    "[FATAL ERROR] "@ + error
}

pub open spec fn spawn_failure(program: Seq<char>, detail: Seq<char>) -> Seq<char> {
    "Falha ao executar '"@ + program + "': "@ + detail
}

pub open spec fn wait_failure(program: Seq<char>, detail: Seq<char>) -> Seq<char> {
    "Erro aguardando processo '"@ + program + "': "@ + detail
}

/// The message for a command that exited unsuccessfully; a missing exit
/// code (the process was killed by a signal) is shown as -1.
pub open spec fn exit_failure(program: Seq<char>, code: Option<i32>) -> Seq<char> {
    let c: int = match code {
        Some(c) => c as int,
        None => -1,
    };
    "O comando '"@ + program + "' retornou código de erro "@ + signed_decimal(c)
}

pub open spec fn mirror_warning(detail: Seq<char>) -> Seq<char> {
    "[AVISO] Reflector falhou: "@ + detail + ". Usando lista padrão."@
}

/// What the installation does after a command.
pub enum Verdict {
    /// Go on with the next step.
    Continue,
    /// Log this warning and go on.
    Warn(String),
    /// Stop with this error.
    Abort(String),
}

pub enum VerdictView {
    Continue,
    Warn(Seq<char>),
    Abort(Seq<char>),
}

impl View for Verdict {
    type V = VerdictView;

    open spec fn view(&self) -> VerdictView {
        match self {
            Verdict::Continue => VerdictView::Continue,
            Verdict::Warn(w) => VerdictView::Warn(w@),
            Verdict::Abort(e) => VerdictView::Abort(e@),
        }
    }
}

/// The decision after a command: success goes on; a failure stops the
/// installation, turns into a warning, or is passed over, as the step's
/// policy says.
pub open spec fn verdict(policy: FailurePolicy, result: Result<(), Seq<char>>) -> VerdictView {
    match result {
        Ok(_) => VerdictView::Continue,
        Err(e) => match policy {
            FailurePolicy::Abort => VerdictView::Abort(e),
            FailurePolicy::Warn => VerdictView::Warn(mirror_warning(e)),
            FailurePolicy::Ignore => VerdictView::Continue,
        },
    }
}

// ---------------------------------------------------------------------
// Executable functions
// ---------------------------------------------------------------------

/// `$ program arg1 arg2 ...`, the line logged before a command runs.
pub fn command_log_line(program: &str, args: &Vec<String>) -> (r: String)
    ensures
        r@ == command_line(program@, views(args@)),
{
    let mut r = String::from_str("$ ");
    r.append(program);
    r.append(" ");
    let joined = join_strings(args, " ");
    r.append(joined.as_str());
    r
}

/// `✓ program finalizado`, the line logged after a command succeeds.
pub fn finished_log_line(program: &str) -> (r: String)
    ensures
        r@ == finished_line(program@),
{
    let mut r = String::from_str("✓ ");
    r.append(program);
    r.append(" finalizado");
    r
}

/// A line that a command wrote to its error output, as it is logged.
pub fn error_output_log_line(line: &str) -> (r: String)
    ensures
        r@ == error_output_line(line@),
{
    let mut r = String::from_str("[ERROR] ");
    r.append(line);
    r
}

/// The log line for an installation that stopped with `error`.
pub fn fatal_log_line(error: &str) -> (r: String)
    ensures
        r@ == fatal_line(error@),
{
    let mut r = String::from_str("[FATAL ERROR] ");
    r.append(error);
    r
}

/// The error for a command that could not be started.
pub fn spawn_failure_message(program: &str, detail: &str) -> (r: String)
    ensures
        r@ == spawn_failure(program@, detail@),
{
    let mut r = String::from_str("Falha ao executar '");
    r.append(program);
    r.append("': ");
    r.append(detail);
    r
}

/// The error for a command whose end could not be awaited.
pub fn wait_failure_message(program: &str, detail: &str) -> (r: String)
    ensures
        r@ == wait_failure(program@, detail@),
{
    let mut r = String::from_str("Erro aguardando processo '");
    r.append(program);
    r.append("': ");
    r.append(detail);
    r
}

/// The error for a command that exited with a failure status.
pub fn exit_failure_message(program: &str, code: Option<i32>) -> (r: String)
    ensures
        r@ == exit_failure(program@, code),
{
    let mut r = String::from_str("O comando '");
    r.append(program);
    r.append("' retornou código de erro ");
    let c: i32 = match code {
        Some(c) => c,
        None => -1,
    };
    push_signed_decimal(&mut r, c);
    r
}

/// The warning logged when refreshing the mirror list failed.
pub fn mirror_warning_message(detail: &str) -> (r: String)
    ensures
        r@ == mirror_warning(detail@),
{
    let mut r = String::from_str("[AVISO] Reflector falhou: ");
    r.append(detail);
    r.append(". Usando lista padrão.");
    r
}

/// The error for a disk listing that could not be made.
pub fn disk_listing_failure_message(detail: &str) -> (r: String)
    ensures
        r@ == "lsblk falhou: "@ + detail@,
{
    let mut r = String::from_str("lsblk falhou: ");
    r.append(detail);
    r
}

/// The error for a restart that could not be started.
pub fn reboot_failure_message(detail: &str) -> (r: String)
    ensures
        r@ == "Falha ao reiniciar sistema: "@ + detail@,
{
    let mut r = String::from_str("Falha ao reiniciar sistema: ");
    r.append(detail);
    r
}

/// The error for a file operation of the plan: the step's `failure` text
/// followed by the reason.
pub fn io_failure_message(failure: &str, detail: &str) -> (r: String)
    ensures
        r@ == failure@ + detail@,
{
    let mut r = String::from_str(failure);
    r.append(detail);
    r
}

/// What to do after a command that ended with `result`, under `policy`.
pub fn after_command(policy: FailurePolicy, result: Result<(), String>) -> (v: Verdict)
    ensures
        v@ == verdict(
            policy,
            match result {
                Ok(_) => Ok(()),
                Err(e) => Err(e@),
            },
        ),
{
    match result {
        Ok(()) => Verdict::Continue,
        Err(e) => match policy {
            FailurePolicy::Abort => Verdict::Abort(e),
            FailurePolicy::Warn => Verdict::Warn(mirror_warning_message(e.as_str())),
            FailurePolicy::Ignore => Verdict::Continue,
        },
    }
}

// ---------------------------------------------------------------------
// Records of the desktop front end
// ---------------------------------------------------------------------

/// A log line sent to the desktop front end, with its kind (`info`,
/// `error` or `ok`).
#[derive(Clone, Debug)]
pub struct LogLine {
    pub text: String,
    pub kind: String,
}

/// A progress report sent to the desktop front end.
#[derive(Clone, Debug)]
pub struct ProgressEvent {
    pub stage: String,
    pub percent: u8,
}

/// The log record for `text` of kind `kind`.
pub fn log_line(text: &str, kind: &str) -> (r: LogLine)
    ensures
        r.text@ == text@,
        r.kind@ == kind@,
{
    LogLine { text: String::from_str(text), kind: String::from_str(kind) }
}

/// The progress record for `stage` at `percent`.
pub fn progress_event(stage: &str, percent: u8) -> (r: ProgressEvent)
    ensures
        r.stage@ == stage@,
        r.percent == percent,
{
    ProgressEvent { stage: String::from_str(stage), percent }
}

} // verus!
