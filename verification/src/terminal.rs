//! Embedded terminal manager: at most one web-terminal process at a time,
//! and the exact command line it runs.
//!
//! The embedding application spawns and kills the process; the manager
//! decides whether a connection may be opened, builds the remote-shell
//! invocation verbatim, and phrases every status it reports.

use vstd::prelude::*;
use vstd::string::*;
use crate::text::dec_digits;

verus! {

/// What the caller asks a terminal connection for.
#[derive(Debug)]
pub struct TerminalRequest {
    pub ssh_user: String,
    pub ip: String,
    pub ssh_port: u16,
    pub password: Option<String>,
}

/// The status a terminal operation reports back.
#[derive(Debug)]
pub struct TerminalStatus {
    pub is_connected: bool,
    pub message: String,
}

/// The remote-shell invocation the terminal runs: on Windows a plain
/// login; elsewhere a forced-TTY login without host-key checking, with
/// the password injected through the helper when one is set.
pub open spec fn ssh_command_view(
    user: Seq<char>,
    ip: Seq<char>,
    port: nat,
    password: Option<Seq<char>>,
    windows: bool,
) -> Seq<char> {
    if windows {
        "ssh -p "@ + dec_digits(port) + " "@ + user + "@"@ + ip
    } else {
        match password {
            Some(pw) => "sshpass -p '"@ + pw + "' ssh -tt -o StrictHostKeyChecking=no -p "@
                + dec_digits(port) + " "@ + user + "@"@ + ip,
            None => "ssh -tt -o StrictHostKeyChecking=no -p "@ + dec_digits(port) + " "@ + user
                + "@"@ + ip,
        }
    }
}

/// Builds the remote-shell invocation for a request.
pub fn build_ssh_command(request: &TerminalRequest, windows: bool) -> (r: String)
    ensures
        r@ == ssh_command_view(
            request.ssh_user@,
            request.ip@,
            request.ssh_port as nat,
            crate::setup::opt_view(request.password),
            windows,
        ),
{
    let port = crate::text::u64_to_string(request.ssh_port as u64);
    let mut s: String;
    if windows {
        s = String::from_str("ssh -p ");
        s.append(port.as_str());
    } else {
        match &request.password {
            Some(pw) => {
                s = String::from_str("sshpass -p '");
                s.append(pw.as_str());
                s.append("' ssh -tt -o StrictHostKeyChecking=no -p ");
                s.append(port.as_str());
            },
            None => {
                s = String::from_str("ssh -tt -o StrictHostKeyChecking=no -p ");
                s.append(port.as_str());
            },
        }
    }
    s.append(" ");
    s.append(request.ssh_user.as_str());
    s.append("@");
    s.append(request.ip.as_str());
    proof {
        assert(s@ =~= ssh_command_view(
            request.ssh_user@,
            request.ip@,
            request.ssh_port as nat,
            crate::setup::opt_view(request.password),
            windows,
        ));
    }
    s
}

/// The argument list of the web-terminal process: writable, a fixed
/// title, and the platform shell running the remote-shell invocation.
pub fn ttyd_args(windows: bool, ssh_command: &str) -> (r: Vec<String>)
    ensures
        r@.len() == 6,
        r@[0]@ == "--writable"@,
        r@[1]@ == "-t"@,
        r@[2]@ == "titleFixed=DevPulse"@,
        r@[3]@ == (if windows {
            "powershell"@
        } else {
            "/bin/bash"@
        }),
        r@[4]@ == "-c"@,
        r@[5]@ == ssh_command@,
{
    let mut v: Vec<String> = Vec::new();
    v.push(String::from_str("--writable"));
    v.push(String::from_str("-t"));
    v.push(String::from_str("titleFixed=DevPulse"));
    if windows {
        v.push(String::from_str("powershell"));
    } else {
        v.push(String::from_str("/bin/bash"));
    }
    v.push(String::from_str("-c"));
    v.push(String::from_str(ssh_command));
    v
}

/// What opening a terminal amounts to: nothing, because one is already
/// running, or launching the given remote-shell invocation.
#[derive(Debug)]
pub enum OpenDecision {
    AlreadyActive(TerminalStatus),
    Launch(String),
}

/// The single terminal process, tracked by the handle the application
/// holds for it.
#[derive(Debug)]
pub struct TerminalManager {
    process: Option<u64>,
}

impl TerminalManager {
    /// The handle of the running terminal process, if any.
    pub closed spec fn process_view(&self) -> Option<u64> {
        self.process
    }

    /// A fresh manager with no terminal running.
    pub fn new() -> (r: TerminalManager)
        ensures
            r.process_view() is None,
    {
        TerminalManager { process: None }
    }

    /// Whether a terminal connection is currently active.
    pub fn check_terminal_status(&self) -> (r: TerminalStatus)
        ensures
            self.process_view() is Some ==> r.is_connected && r.message@ == "terminal active"@,
            self.process_view() is None ==> !r.is_connected && r.message@
                == "no active connection"@,
    {
        match self.process {
            Some(_) => TerminalStatus {
                is_connected: true,
                message: String::from_str("terminal active"),
            },
            None => TerminalStatus {
                is_connected: false,
                message: String::from_str("no active connection"),
            },
        }
    }

    /// Decides an open request: a running terminal is reported as already
    /// active; otherwise the remote-shell invocation to launch is built.
    pub fn plan_open(&self, request: &TerminalRequest, windows: bool) -> (r: OpenDecision)
        ensures
            self.process_view() is Some ==> (r matches OpenDecision::AlreadyActive(s)
                && s.is_connected && s.message@ == "connection already active"@),
            self.process_view() is None ==> (r matches OpenDecision::Launch(cmd) && cmd@
                == ssh_command_view(
                request.ssh_user@,
                request.ip@,
                request.ssh_port as nat,
                crate::setup::opt_view(request.password),
                windows,
            )),
    {
        match self.process {
            Some(_) => OpenDecision::AlreadyActive(
                TerminalStatus {
                    is_connected: true,
                    message: String::from_str("connection already active"),
                },
            ),
            None => OpenDecision::Launch(build_ssh_command(request, windows)),
        }
    }

    /// Records the spawned terminal process and reports the connection.
    pub fn confirm_open(&mut self, handle: u64) -> (r: TerminalStatus)
        ensures
            final(self).process_view() == Some(handle),
            r.is_connected,
            r.message@ == "SSH connection established"@,
    {
        self.process = Some(handle);
        TerminalStatus {
            is_connected: true,
            message: String::from_str("SSH connection established"),
        }
    }

    /// Releases the terminal: hands back the process handle to kill, if
    /// one was running, and reports the disconnection either way.
    pub fn logout(&mut self) -> (r: (Option<u64>, TerminalStatus))
        ensures
            final(self).process_view() is None,
            r.0 == old(self).process_view(),
            !r.1.is_connected,
            old(self).process_view() is Some ==> r.1.message@ == "disconnected"@,
            old(self).process_view() is None ==> r.1.message@ == "no connection to close"@,
    {
        let handle = self.process;
        self.process = None;
        match handle {
            Some(h) => (
                Some(h),
                TerminalStatus { is_connected: false, message: String::from_str("disconnected") },
            ),
            None => (
                None,
                TerminalStatus {
                    is_connected: false,
                    message: String::from_str("no connection to close"),
                },
            ),
        }
    }
}

/// The error text when the terminal process could not be killed.
pub fn terminal_close_error(detail: &str) -> (r: String)
    ensures
        r@ == "could not close the terminal: "@ + detail@,
{
    let mut s = String::from_str("could not close the terminal: ");
    s.append(detail);
    s
}

} // verus!
