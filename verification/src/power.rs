//! Remote power orchestrator: the ordered shutdown fallback chain, the
//! classification of each attempt's outcome, and the exact argument lists
//! and scripts each strategy hands to the operating system.
//!
//! Every attempt is a fresh one-shot connection run by the embedding
//! application; the orchestrator decides which command to try with which
//! authentication strategy, short-circuits on the first success, and
//! aggregates a failure once every combination is exhausted.

use vstd::prelude::*;
use vstd::string::*;
use crate::records::PowerResult;
use crate::text::{views_of, contains_seq, dec_digits, u64_to_string};

verus! {

/// The ordered shutdown command list: the caller's command (or the
/// conventional default) first, then the fallbacks for other systems.
pub fn shutdown_commands(custom_command: &Option<String>) -> (r: Vec<String>)
    ensures
        r@.len() == 4,
        r@[0]@ == (match custom_command {
            Some(c) => c@,
            None => "sudo shutdown -h now"@,
        }),
        r@[1]@ == "sudo poweroff"@,
        r@[2]@ == "sudo halt"@,
        r@[3]@ == "shutdown -s -t 0"@,
{
    let first = match custom_command {
        Some(c) => c.clone(),
        None => String::from_str("sudo shutdown -h now"),
    };
    let mut v: Vec<String> = Vec::new();
    v.push(first);
    v.push(String::from_str("sudo poweroff"));
    v.push(String::from_str("sudo halt"));
    v.push(String::from_str("shutdown -s -t 0"));
    v
}

/// How one attempt authenticates.
#[derive(Debug)]
pub enum ShutdownStrategy {
    /// Password authentication through the external password-injection
    /// helper.
    PasswordHelper,
    /// The scripted interactive-expect fallback, used when the helper is
    /// unavailable.
    ScriptedExpect,
    /// Key-based authentication, used when no password is configured.
    KeyFile,
}

/// One attempt the application must run: a command under a strategy.
#[derive(Debug)]
pub struct ShutdownAttempt {
    pub command: String,
    pub strategy: ShutdownStrategy,
}

/// How one attempt ended.
#[derive(Debug)]
pub enum AttemptOutcome {
    /// The remote shell accepted the command with a zero exit status.
    Succeeded,
    /// The helper tool itself is unavailable; the scripted fallback
    /// should take over for the same command.
    HelperUnavailable(String),
    /// The attempt ran and failed; the next combination is tried.
    Failed(String),
}

/// What the application reports about one spawned process.
#[derive(Debug)]
pub enum RunReport {
    /// The process could not be started at all.
    SpawnFailed(String),
    /// The process ran to completion.
    Exited { success: bool, stderr: String },
}

/// Classifies a run of the password-injection helper.  A helper that
/// could not be spawned, or whose error output shows the tool is absent,
/// sends the chain to the scripted fallback rather than to the next
/// command.
pub fn classify_helper_run(report: RunReport) -> (r: AttemptOutcome)
    ensures
        report matches RunReport::SpawnFailed(e) ==> r == AttemptOutcome::HelperUnavailable(e),
        report matches RunReport::Exited { success: true, .. } ==> r == AttemptOutcome::Succeeded,
        report matches RunReport::Exited { success: false, stderr } ==> {
            if contains_seq(stderr@, "command not found"@) || contains_seq(
                stderr@,
                "No such file"@,
            ) {
                r == AttemptOutcome::HelperUnavailable(stderr)
            } else {
                r matches AttemptOutcome::Failed(msg) && msg@ == "SSH error: "@ + stderr@
            }
        },
{
    match report {
        RunReport::SpawnFailed(e) => AttemptOutcome::HelperUnavailable(e),
        RunReport::Exited { success, stderr } => {
            if success {
                AttemptOutcome::Succeeded
            } else {
                let absent = crate::text::str_contains(stderr.as_str(), "command not found")
                    || crate::text::str_contains(stderr.as_str(), "No such file");
                if absent {
                    AttemptOutcome::HelperUnavailable(stderr)
                } else {
                    let mut msg = String::from_str("SSH error: ");
                    msg.append(stderr.as_str());
                    AttemptOutcome::Failed(msg)
                }
            }
        },
    }
}

/// Classifies a run of the scripted-expect fallback.
pub fn classify_expect_run(report: RunReport) -> (r: AttemptOutcome)
    ensures
        report matches RunReport::SpawnFailed(e) ==> (r matches AttemptOutcome::Failed(msg)
            && msg@ == "expect not available: "@ + e@),
        report matches RunReport::Exited { success: true, .. } ==> r == AttemptOutcome::Succeeded,
        report matches RunReport::Exited { success: false, stderr } ==> (r matches
            AttemptOutcome::Failed(msg) && msg@ == "expect error: "@ + stderr@),
{
    match report {
        RunReport::SpawnFailed(e) => {
            let mut msg = String::from_str("expect not available: ");
            msg.append(e.as_str());
            AttemptOutcome::Failed(msg)
        },
        RunReport::Exited { success, stderr } => {
            if success {
                AttemptOutcome::Succeeded
            } else {
                let mut msg = String::from_str("expect error: ");
                msg.append(stderr.as_str());
                AttemptOutcome::Failed(msg)
            }
        },
    }
}

/// Classifies a run of key-authenticated remote execution.
pub fn classify_key_run(report: RunReport) -> (r: AttemptOutcome)
    ensures
        report matches RunReport::SpawnFailed(e) ==> (r matches AttemptOutcome::Failed(msg)
            && msg@ == "SSH execution error: "@ + e@),
        report matches RunReport::Exited { success: true, .. } ==> r == AttemptOutcome::Succeeded,
        report matches RunReport::Exited { success: false, stderr } ==> (r matches
            AttemptOutcome::Failed(msg) && msg@ == "SSH key error: "@ + stderr@),
{
    match report {
        RunReport::SpawnFailed(e) => {
            let mut msg = String::from_str("SSH execution error: ");
            msg.append(e.as_str());
            AttemptOutcome::Failed(msg)
        },
        RunReport::Exited { success, stderr } => {
            if success {
                AttemptOutcome::Succeeded
            } else {
                let mut msg = String::from_str("SSH key error: ");
                msg.append(stderr.as_str());
                AttemptOutcome::Failed(msg)
            }
        },
    }
}

/// The success message a strategy reports.
pub open spec fn strategy_success_message(s: ShutdownStrategy) -> Seq<char> {
    match s {
        ShutdownStrategy::PasswordHelper => "shutdown command executed"@,
        ShutdownStrategy::ScriptedExpect => "shutdown command executed (scripted expect)"@,
        ShutdownStrategy::KeyFile => "shutdown command executed (key authentication)"@,
    }
}

/// The strategy the chain restarts with after moving to the next command.
pub open spec fn reset_strategy(s: ShutdownStrategy) -> ShutdownStrategy {
    match s {
        ShutdownStrategy::KeyFile => ShutdownStrategy::KeyFile,
        _ => ShutdownStrategy::PasswordHelper,
    }
}

/// The shutdown fallback chain: which command to try next, under which
/// strategy, and when to stop.
#[derive(Debug)]
pub struct ShutdownOrchestrator {
    commands: Vec<String>,
    use_password: bool,
    index: usize,
    expect_fallback: bool,
    last_error: Option<String>,
}

impl ShutdownOrchestrator {
    /// The command list being walked.
    pub closed spec fn commands_view(&self) -> Seq<Seq<char>> {
        views_of(self.commands@)
    }

    /// The position of the current command.
    pub closed spec fn index_view(&self) -> int {
        self.index as int
    }

    /// The strategy the current attempt uses.
    pub closed spec fn strategy_now(&self) -> ShutdownStrategy {
        if !self.use_password {
            ShutdownStrategy::KeyFile
        } else if self.expect_fallback {
            ShutdownStrategy::ScriptedExpect
        } else {
            ShutdownStrategy::PasswordHelper
        }
    }

    /// The detail of the most recent failure.
    pub closed spec fn last_error_view(&self) -> Option<Seq<char>> {
        match self.last_error {
            Some(e) => Some(e@),
            None => None,
        }
    }

    /// The position never runs past the command list.
    pub closed spec fn wf(&self) -> bool {
        self.index <= self.commands@.len()
    }

    /// Every combination has been tried.
    pub open spec fn exhausted(&self) -> bool {
        self.index_view() >= self.commands_view().len()
    }

    /// A fresh chain over the given command list.  With a password
    /// configured the chain starts each command at the helper strategy;
    /// without one it uses key authentication throughout.
    pub fn new(custom_command: &Option<String>, has_password: bool) -> (r: ShutdownOrchestrator)
        ensures
            r.wf(),
            r.commands_view().len() == 4,
            r.commands_view()[0] == (match custom_command {
                Some(c) => c@,
                None => "sudo shutdown -h now"@,
            }),
            r.commands_view()[1] == "sudo poweroff"@,
            r.commands_view()[2] == "sudo halt"@,
            r.commands_view()[3] == "shutdown -s -t 0"@,
            r.index_view() == 0,
            r.strategy_now() == (if has_password {
                ShutdownStrategy::PasswordHelper
            } else {
                ShutdownStrategy::KeyFile
            }),
            r.last_error_view() is None,
    {
        ShutdownOrchestrator {
            commands: shutdown_commands(custom_command),
            use_password: has_password,
            index: 0,
            expect_fallback: false,
            last_error: None,
        }
    }

    /// The attempt to run next, or nothing once the chain is exhausted.
    pub fn current_attempt(&self) -> (r: Option<ShutdownAttempt>)
        requires
            self.wf(),
        ensures
            !self.exhausted() ==> (r matches Some(a) && a.command@ == self.commands_view()[
            self.index_view()] && a.strategy == self.strategy_now()),
            self.exhausted() ==> r is None,
    {
        if self.index < self.commands.len() {
            let strategy = if !self.use_password {
                ShutdownStrategy::KeyFile
            } else if self.expect_fallback {
                ShutdownStrategy::ScriptedExpect
            } else {
                ShutdownStrategy::PasswordHelper
            };
            Some(ShutdownAttempt { command: self.commands[self.index].clone(), strategy })
        } else {
            None
        }
    }

    /// Feeds the outcome of the current attempt back into the chain.
    ///
    /// A success ends the chain at once with a success report naming the
    /// accepted command.  An unavailable helper re-runs the same command
    /// under the scripted fallback.  Any other failure moves to the next
    /// command; when the last one fails, the chain ends with a failure
    /// report carrying the final error.
    pub fn record_outcome(&mut self, outcome: AttemptOutcome) -> (r: Option<PowerResult>)
        requires
            old(self).wf(),
            !old(self).exhausted(),
        ensures
            final(self).wf(),
            final(self).commands_view() == old(self).commands_view(),
            outcome is Succeeded ==> {
                &&& r matches Some(p)
                &&& p.success
                &&& p.message@ == strategy_success_message(old(self).strategy_now())
                &&& p.details matches Some(d) && d@ == "command executed: "@ + old(
                    self,
                ).commands_view()[old(self).index_view()]
                &&& final(self).exhausted()
            },
            outcome matches AttemptOutcome::HelperUnavailable(e) ==> (old(self).strategy_now()
                is PasswordHelper ==> {
                &&& r is None
                &&& final(self).index_view() == old(self).index_view()
                &&& final(self).strategy_now() is ScriptedExpect
                &&& final(self).last_error_view() == Some(e@)
            }),
            ({
                let failure = match outcome {
                    AttemptOutcome::Failed(e) => Some(e),
                    AttemptOutcome::HelperUnavailable(e) => if old(self).strategy_now()
                        is PasswordHelper {
                        None
                    } else {
                        Some(e)
                    },
                    AttemptOutcome::Succeeded => None,
                };
                failure matches Some(e) ==> {
                    &&& final(self).index_view() == old(self).index_view() + 1
                    &&& final(self).strategy_now() == reset_strategy(old(self).strategy_now())
                    &&& final(self).last_error_view() == Some(e@)
                    &&& if final(self).exhausted() {
                        &&& r matches Some(p)
                        &&& !p.success
                        &&& p.message@ == "could not shut down the host"@
                        &&& p.details matches Some(d) && d@ == "last error: "@ + e@
                    } else {
                        r is None
                    }
                }
            }),
    {
        match outcome {
            AttemptOutcome::Succeeded => {
                let mut details = String::from_str("command executed: ");
                details.append(self.commands[self.index].as_str());
                let message = match self.current_attempt() {
                    Some(a) => match a.strategy {
                        ShutdownStrategy::PasswordHelper => String::from_str(
                            "shutdown command executed",
                        ),
                        ShutdownStrategy::ScriptedExpect => String::from_str(
                            "shutdown command executed (scripted expect)",
                        ),
                        ShutdownStrategy::KeyFile => String::from_str(
                            "shutdown command executed (key authentication)",
                        ),
                    },
                    None => String::from_str("shutdown command executed"),
                };
                self.index = self.commands.len();
                Some(PowerResult { success: true, message, details: Some(details) })
            },
            AttemptOutcome::HelperUnavailable(e) => {
                if self.use_password && !self.expect_fallback {
                    self.expect_fallback = true;
                    self.last_error = Some(e);
                    None
                } else {
                    self.advance_after_failure(e)
                }
            },
            AttemptOutcome::Failed(e) => self.advance_after_failure(e),
        }
    }

    fn advance_after_failure(&mut self, e: String) -> (r: Option<PowerResult>)
        requires
            old(self).wf(),
            !old(self).exhausted(),
        ensures
            final(self).wf(),
            final(self).commands_view() == old(self).commands_view(),
            final(self).index_view() == old(self).index_view() + 1,
            final(self).strategy_now() == reset_strategy(old(self).strategy_now()),
            final(self).last_error_view() == Some(e@),
            if final(self).exhausted() {
                &&& r matches Some(p)
                &&& !p.success
                &&& p.message@ == "could not shut down the host"@
                &&& p.details matches Some(d) && d@ == "last error: "@ + e@
            } else {
                r is None
            },
    {
        let len = self.commands.len();
        proof {
            assert(old(self).commands_view().len() == self.commands@.len());
            assert(self.index < len);
        }
        self.index = self.index + 1;
        self.expect_fallback = false;
        let exhausted_now = self.index >= len;
        if exhausted_now {
            let mut details = String::from_str("last error: ");
            details.append(e.as_str());
            self.last_error = Some(e);
            Some(
                PowerResult {
                    success: false,
                    message: String::from_str("could not shut down the host"),
                    details: Some(details),
                },
            )
        } else {
            self.last_error = Some(e);
            None
        }
    }
}

/// The `user@host` login target.
pub fn user_at_host(user: &str, host: &str) -> (r: String)
    ensures
        r@ == user@ + "@"@ + host@,
{
    let mut s = String::from_str(user);
    s.append("@");
    s.append(host);
    proof {
        assert(s@ =~= user@ + "@"@ + host@);
    }
    s
}

/// The argument list for the password-injection helper: the password, the
/// remote-shell invocation with host-key checking off and a bounded
/// connect timeout, the port, the login target and the command.
pub fn helper_args(host: &str, user: &str, port: u16, password: &str, command: &str) -> (r: Vec<
    String,
>)
    ensures
        r@.len() == 11,
        r@[0]@ == "-p"@,
        r@[1]@ == password@,
        r@[2]@ == "ssh"@,
        r@[3]@ == "-o"@,
        r@[4]@ == "StrictHostKeyChecking=no"@,
        r@[5]@ == "-o"@,
        r@[6]@ == "ConnectTimeout=10"@,
        r@[7]@ == "-p"@,
        r@[8]@ == dec_digits(port as nat),
        r@[9]@ == user@ + "@"@ + host@,
        r@[10]@ == command@,
{
    let mut v: Vec<String> = Vec::new();
    v.push(String::from_str("-p"));
    v.push(String::from_str(password));
    v.push(String::from_str("ssh"));
    v.push(String::from_str("-o"));
    v.push(String::from_str("StrictHostKeyChecking=no"));
    v.push(String::from_str("-o"));
    v.push(String::from_str("ConnectTimeout=10"));
    v.push(String::from_str("-p"));
    v.push(u64_to_string(port as u64));
    v.push(user_at_host(user, host));
    v.push(String::from_str(command));
    v
}

/// The argument list for key-authenticated remote execution.
pub fn key_args(host: &str, user: &str, port: u16, command: &str) -> (r: Vec<String>)
    ensures
        r@.len() == 8,
        r@[0]@ == "-o"@,
        r@[1]@ == "StrictHostKeyChecking=no"@,
        r@[2]@ == "-o"@,
        r@[3]@ == "ConnectTimeout=10"@,
        r@[4]@ == "-p"@,
        r@[5]@ == dec_digits(port as nat),
        r@[6]@ == user@ + "@"@ + host@,
        r@[7]@ == command@,
{
    let mut v: Vec<String> = Vec::new();
    v.push(String::from_str("-o"));
    v.push(String::from_str("StrictHostKeyChecking=no"));
    v.push(String::from_str("-o"));
    v.push(String::from_str("ConnectTimeout=10"));
    v.push(String::from_str("-p"));
    v.push(u64_to_string(port as u64));
    v.push(user_at_host(user, host));
    v.push(String::from_str(command));
    v
}

/// The scripted-expect program that answers the password prompts and runs
/// the command.
pub open spec fn expect_script_view(
    host: Seq<char>,
    user: Seq<char>,
    port: nat,
    password: Seq<char>,
    command: Seq<char>,
) -> Seq<char> {
    "\nspawn ssh -o StrictHostKeyChecking=no -p "@ + dec_digits(port) + " "@ + user + "@"@ + host
        + " \""@ + command + "\"\nexpect {\n    \"password:\" { send \""@ + password
        + "\\r\"; exp_continue }\n    \"Password:\" { send \""@ + password
        + "\\r\"; exp_continue }\n    eof\n}\n"@
}

/// Builds the scripted-expect program for one attempt.
pub fn expect_script(host: &str, user: &str, port: u16, password: &str, command: &str) -> (r:
    String)
    ensures
        r@ == expect_script_view(host@, user@, port as nat, password@, command@),
{
    let mut s = String::from_str("\nspawn ssh -o StrictHostKeyChecking=no -p ");
    s.append(u64_to_string(port as u64).as_str());
    s.append(" ");
    s.append(user);
    s.append("@");
    s.append(host);
    s.append(" \"");
    s.append(command);
    s.append("\"\nexpect {\n    \"password:\" { send \"");
    s.append(password);
    s.append("\\r\"; exp_continue }\n    \"Password:\" { send \"");
    s.append(password);
    s.append("\\r\"; exp_continue }\n    eof\n}\n");
    proof {
        assert(s@ =~= expect_script_view(host@, user@, port as nat, password@, command@));
    }
    s
}

/// The ping argument list for one reachability probe: one echo request,
/// with the flag the platform's ping expects.
pub fn ping_args(target: &str, windows: bool) -> (r: Vec<String>)
    ensures
        r@.len() == 3,
        r@[0]@ == (if windows {
            "-n"@
        } else {
            "-c"@
        }),
        r@[1]@ == "1"@,
        r@[2]@ == target@,
{
    let mut v: Vec<String> = Vec::new();
    if windows {
        v.push(String::from_str("-n"));
    } else {
        v.push(String::from_str("-c"));
    }
    v.push(String::from_str("1"));
    v.push(String::from_str(target));
    v
}

/// The report of one reachability probe run through the system ping.
pub fn connectivity_report(target: &str, report: RunReport) -> (r: PowerResult)
    ensures
        report matches RunReport::Exited { success: true, .. } ==> {
            &&& r.success
            &&& r.message@ == "network reachable"@
            &&& r.details matches Some(d) && d@ == "ping to "@ + target@ + " succeeded"@
        },
        report matches RunReport::Exited { success: false, .. } ==> {
            &&& !r.success
            &&& r.message@ == "network unreachable"@
            &&& r.details matches Some(d) && d@ == "ping to "@ + target@ + " failed"@
        },
        report matches RunReport::SpawnFailed(e) ==> {
            &&& !r.success
            &&& r.message@ == "network test failed"@
            &&& r.details matches Some(d) && d@ == "ping command error: "@ + e@
        },
{
    match report {
        RunReport::Exited { success: true, .. } => {
            let mut d = String::from_str("ping to ");
            d.append(target);
            d.append(" succeeded");
            proof {
                assert(d@ =~= "ping to "@ + target@ + " succeeded"@);
            }
            PowerResult {
                success: true,
                message: String::from_str("network reachable"),
                details: Some(d),
            }
        },
        RunReport::Exited { success: false, .. } => {
            let mut d = String::from_str("ping to ");
            d.append(target);
            d.append(" failed");
            proof {
                assert(d@ =~= "ping to "@ + target@ + " failed"@);
            }
            PowerResult {
                success: false,
                message: String::from_str("network unreachable"),
                details: Some(d),
            }
        },
        RunReport::SpawnFailed(e) => {
            let mut d = String::from_str("ping command error: ");
            d.append(e.as_str());
            PowerResult {
                success: false,
                message: String::from_str("network test failed"),
                details: Some(d),
            }
        },
    }
}

} // verus!
