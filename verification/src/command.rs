//! Command executor: one-shot commands over a fresh channel of a live
//! session, and the single-string composition of their output.
//!
//! The application opens the channel, runs the command and collects the
//! two streams and the exit status; the lookup, the error taxonomy and the
//! exact composition of the returned text are fixed here.

use vstd::prelude::*;
use vstd::string::*;
use crate::session::{SessionRegistry, SessionError, SessionData};
use crate::text::signed_dec_digits;

verus! {

/// The block appended when standard error was not empty.
pub open spec fn stderr_block(stderr: Seq<char>) -> Seq<char> {
    if stderr.len() > 0 {
        "\n--- STDERR ---\n"@ + stderr
    } else {
        Seq::<char>::empty()
    }
}

/// The marker appended when the exit code was not zero.
pub open spec fn exit_marker(code: int) -> Seq<char> {
    "\n--- EXIT CODE: "@ + signed_dec_digits(code) + " ---"@
}

/// The single string a command call returns: standard output, then the
/// standard-error block if there was any, then the exit-code marker if the
/// code was non-zero.
pub open spec fn composed_output(stdout: Seq<char>, stderr: Seq<char>, code: int) -> Seq<char> {
    stdout + stderr_block(stderr) + (if code != 0 {
        exit_marker(code)
    } else {
        Seq::<char>::empty()
    })
}

/// Composes the combined output of a completed command.
pub fn compose_command_output(stdout: String, stderr: &str, exit_code: i32) -> (r: String)
    ensures
        r@ == composed_output(stdout@, stderr@, exit_code as int),
{
    let mut out = stdout;
    if !stderr.is_empty() {
        out.append("\n--- STDERR ---\n");
        out.append(stderr);
    }
    if exit_code != 0 {
        out.append("\n--- EXIT CODE: ");
        out.append(crate::text::i64_to_string(exit_code as i64).as_str());
        out.append(" ---");
    }
    proof {
        assert(out@ =~= composed_output(stdout@, stderr@, exit_code as int));
    }
    out
}

/// A non-zero exit status always leaves the exit-code marker, carrying
/// that status's decimal value, at the end of the composed output — so
/// the output of a failed command can never be mistaken for a clean one.
pub proof fn lemma_nonzero_exit_marker(stdout: Seq<char>, stderr: Seq<char>, code: int)
    requires
        code != 0,
    ensures
        composed_output(stdout, stderr, code) == (stdout + stderr_block(stderr)) + exit_marker(
            code,
        ),
        crate::text::contains_seq(composed_output(stdout, stderr, code), exit_marker(code)),
{
    let prefix = stdout + stderr_block(stderr);
    let out = composed_output(stdout, stderr, code);
    assert(out =~= prefix + exit_marker(code));
    assert(out.subrange(prefix.len() as int, out.len() as int) =~= exit_marker(code));
    assert(crate::text::occurs_at(out, exit_marker(code), prefix.len() as int));
}

/// Everything the application needs to run one command: the session's
/// transport handle for the fresh channel, and the command text.
#[derive(Debug)]
pub struct ExecPlan {
    pub transport: u64,
    pub command: String,
}

/// Looks the session up and hands back the execution plan, or "session
/// not found".
pub fn plan_execute(registry: &SessionRegistry, id: &String, command: String) -> (r: Result<
    ExecPlan,
    SessionError,
>)
    requires
        registry.wf(),
    ensures
        registry@.contains_key(id@) ==> (r matches Ok(p) && p.transport
            == registry@[id@].transport && p.command == command),
        !registry@.contains_key(id@) ==> r == Err::<ExecPlan, SessionError>(
            SessionError::NotFound,
        ),
{
    match registry.transport_of(id) {
        Ok(t) => Ok(ExecPlan { transport: t, command }),
        Err(e) => Err(e),
    }
}

/// The step of a command run at which an I/O failure occurred.
#[derive(Debug)]
pub enum ExecStage {
    OpenChannel,
    RunCommand,
    ReadStdout,
    ReadStderr,
    WaitClose,
    ExitStatus,
}

/// The label an execution error carries for its failing stage.
pub open spec fn exec_stage_label(stage: ExecStage) -> Seq<char> {
    match stage {
        ExecStage::OpenChannel => "failed to open the command channel: "@,
        ExecStage::RunCommand => "failed to run the command: "@,
        ExecStage::ReadStdout => "failed to read standard output: "@,
        ExecStage::ReadStderr => "failed to read standard error: "@,
        ExecStage::WaitClose => "failed while waiting for the channel to close: "@,
        ExecStage::ExitStatus => "failed to read the exit status: "@,
    }
}

/// The error text for a command run that failed part-way: the failing
/// stage's label followed by the transport's own error.  No partial
/// output accompanies it.
pub fn execution_error(stage: ExecStage, detail: &str) -> (r: String)
    ensures
        r@ == exec_stage_label(stage) + detail@,
{
    let mut s = match stage {
        ExecStage::OpenChannel => String::from_str("failed to open the command channel: "),
        ExecStage::RunCommand => String::from_str("failed to run the command: "),
        ExecStage::ReadStdout => String::from_str("failed to read standard output: "),
        ExecStage::ReadStderr => String::from_str("failed to read standard error: "),
        ExecStage::WaitClose => String::from_str("failed while waiting for the channel to close: "),
        ExecStage::ExitStatus => String::from_str("failed to read the exit status: "),
    };
    s.append(detail);
    s
}

/// Commands on two different sessions cannot observe each other.  The
/// execution plan for an identifier reads only that identifier's entry,
/// so inserting, replacing or removing any other session leaves it
/// untouched; and the composed output is a function of the plan's own
/// channel streams alone.
pub proof fn lemma_execute_no_crosstalk(
    m: Map<Seq<char>, SessionData>,
    id_a: Seq<char>,
    id_b: Seq<char>,
    d: SessionData,
)
    requires
        id_a != id_b,
        m.contains_key(id_a),
    ensures
        m.insert(id_b, d).contains_key(id_a),
        m.insert(id_b, d)[id_a] == m[id_a],
        m.remove(id_b).contains_key(id_a),
        m.remove(id_b)[id_a] == m[id_a],
{
}

} // verus!
