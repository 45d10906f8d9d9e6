//! System setup: classifying what the probes found, deriving the setup
//! status, and driving the helper-installation flow step by step.
//!
//! The embedding application runs the probes (version, model and CPU
//! queries, path checks, the package manager); every decision about what
//! the answers mean — and what to run next during an installation — is
//! made and proved here.

use vstd::prelude::*;
use vstd::string::*;
use crate::power::RunReport;
use crate::text::{contains_seq, trimmed, str_contains, trim_str};

verus! {

/// Everything the setup check reports about this machine.
#[derive(Debug)]
pub struct SystemInfo {
    pub platform: String,
    pub arch: String,
    pub os_version: String,
    pub chip: String,
    pub supported: bool,
    pub has_homebrew: bool,
    pub has_sshpass: bool,
    pub ttyd_bundled_path: String,
    pub ttyd_bundled_ok: bool,
    pub homebrew_path: Option<String>,
    pub needs_setup: bool,
    pub ready_for_ssh: bool,
    pub setup_message: String,
    pub mac_model: String,
}

/// The view of an optional probe output.
pub open spec fn opt_view(o: Option<String>) -> Option<Seq<char>> {
    match o {
        Some(s) => Some(s@),
        None => None,
    }
}

/// A chip label counts as supported when it names Apple silicon.
pub open spec fn supported_chip(chip: Seq<char>) -> bool {
    contains_seq(chip, "Apple"@) || contains_seq(chip, "M1"@) || contains_seq(chip, "M2"@)
        || contains_seq(chip, "M3"@) || contains_seq(chip, "M4"@)
}

/// Whether this machine's chip is supported; the version string does not
/// restrict support.
pub fn is_macos_supported(_version: &str, chip: &str) -> (r: bool)
    ensures
        r == supported_chip(chip@),
{
    str_contains(chip, "Apple") || str_contains(chip, "M1") || str_contains(chip, "M2")
        || str_contains(chip, "M3") || str_contains(chip, "M4")
}

/// The chip label derived from the CPU brand string and the hardware
/// model: non-Apple brands are Intel, known model families get their
/// generation's name, and anything else falls back on the brand string.
pub open spec fn chip_label(cpu_info: Option<Seq<char>>, model: Option<Seq<char>>) -> Seq<char> {
    match cpu_info {
        None => "Unknown"@,
        Some(cpu) => if !contains_seq(cpu, "Apple"@) {
            "Intel"@
        } else {
            match model {
                None => "Apple Silicon"@,
                Some(m) => if contains_seq(m, "MacBookPro21"@) {
                    "Apple M2 Pro"@
                } else if contains_seq(m, "Mac15"@) {
                    "Apple M2 Pro/Max"@
                } else if contains_seq(m, "MacBookPro20"@) {
                    "Apple M2"@
                } else if contains_seq(m, "MacBookAir15"@) {
                    "Apple M2"@
                } else if contains_seq(m, "MacBookPro17"@) || contains_seq(m, "MacBookPro18"@) {
                    "Apple M1"@
                } else if contains_seq(m, "Mac13"@) || contains_seq(m, "Mac14"@) {
                    "Apple M1 Pro/Max"@
                } else if contains_seq(m, "Mac16"@) || contains_seq(m, "Mac17"@) {
                    "Apple M3"@
                } else if contains_seq(m, "Mac18"@) {
                    "Apple M4"@
                } else if contains_seq(cpu, "M2"@) {
                    "Apple M2 Pro"@
                } else {
                    "Apple Silicon"@
                },
            }
        },
    }
}

/// Classifies the chip from the probe outputs.
pub fn detect_apple_chip(cpu_info: &Option<String>, model: &Option<String>) -> (r: String)
    ensures
        r@ == chip_label(opt_view(*cpu_info), opt_view(*model)),
{
    match cpu_info {
        None => String::from_str("Unknown"),
        Some(cpu) => {
            if !str_contains(cpu.as_str(), "Apple") {
                String::from_str("Intel")
            } else {
                match model {
                    None => String::from_str("Apple Silicon"),
                    Some(m) => {
                        let ms = m.as_str();
                        if str_contains(ms, "MacBookPro21") {
                            String::from_str("Apple M2 Pro")
                        } else if str_contains(ms, "Mac15") {
                            String::from_str("Apple M2 Pro/Max")
                        } else if str_contains(ms, "MacBookPro20") {
                            String::from_str("Apple M2")
                        } else if str_contains(ms, "MacBookAir15") {
                            String::from_str("Apple M2")
                        } else if str_contains(ms, "MacBookPro17") || str_contains(
                            ms,
                            "MacBookPro18",
                        ) {
                            String::from_str("Apple M1")
                        } else if str_contains(ms, "Mac13") || str_contains(ms, "Mac14") {
                            String::from_str("Apple M1 Pro/Max")
                        } else if str_contains(ms, "Mac16") || str_contains(ms, "Mac17") {
                            String::from_str("Apple M3")
                        } else if str_contains(ms, "Mac18") {
                            String::from_str("Apple M4")
                        } else if str_contains(cpu.as_str(), "M2") {
                            String::from_str("Apple M2 Pro")
                        } else {
                            String::from_str("Apple Silicon")
                        }
                    },
                }
            }
        },
    }
}

/// The version label: the trimmed probe output behind a `macOS` prefix,
/// or `macOS Unknown` when the probe failed.
pub fn macos_version_label(output: &Option<String>) -> (r: String)
    ensures
        match opt_view(*output) {
            Some(o) => r@ == "macOS "@ + trimmed(o),
            None => r@ == "macOS Unknown"@,
        },
{
    match output {
        Some(o) => {
            let mut s = String::from_str("macOS ");
            s.append(trim_str(o.as_str()).as_str());
            s
        },
        None => String::from_str("macOS Unknown"),
    }
}

/// The hardware-model label: the trimmed probe output, or `Unknown`.
pub fn mac_model_label(output: &Option<String>) -> (r: String)
    ensures
        match opt_view(*output) {
            Some(o) => r@ == trimmed(o),
            None => r@ == "Unknown"@,
        },
{
    match output {
        Some(o) => trim_str(o.as_str()),
        None => String::from_str("Unknown"),
    }
}

/// The fixed candidate locations of the package manager, silicon first.
pub fn homebrew_candidate_paths() -> (r: Vec<String>)
    ensures
        r@.len() == 2,
        r@[0]@ == "/opt/homebrew/bin/brew"@,
        r@[1]@ == "/usr/local/bin/brew"@,
{
    let mut v: Vec<String> = Vec::new();
    v.push(String::from_str("/opt/homebrew/bin/brew"));
    v.push(String::from_str("/usr/local/bin/brew"));
    v
}

/// Whether the package manager is present, and where: a candidate path
/// that exists wins; otherwise a successful lookup's trimmed output;
/// otherwise absent.
pub fn homebrew_status(found_candidate: Option<String>, lookup_output: Option<String>) -> (r: (
    bool,
    Option<String>,
))
    ensures
        found_candidate matches Some(p) ==> (r.0 && r.1 == Some(p)),
        found_candidate is None ==> match opt_view(lookup_output) {
            Some(o) => r.0 && (r.1 matches Some(p) && p@ == trimmed(o)),
            None => !r.0 && r.1 is None,
        },
{
    match found_candidate {
        Some(p) => (true, Some(p)),
        None => match lookup_output {
            Some(o) => (true, Some(trim_str(o.as_str()))),
            None => (false, None),
        },
    }
}

/// What the probe of the bundled terminal binary reported.
#[derive(Debug)]
pub enum TerminalProbe {
    /// The resource path resolved; `exists` says whether the binary is
    /// there.
    Resolved { path: String, exists: bool },
    /// The resource path could not be resolved at all.
    ResolveFailed(String),
}

/// Whether the bundled terminal binary is usable, and the path or error
/// text to report.
pub fn bundled_terminal_status(probe: TerminalProbe) -> (r: (bool, String))
    ensures
        probe matches TerminalProbe::Resolved { path, exists } ==> (r.0 == exists && r.1 == path),
        probe matches TerminalProbe::ResolveFailed(e) ==> (!r.0 && r.1@
            == "could not resolve the bundled terminal path: "@ + e@),
{
    match probe {
        TerminalProbe::Resolved { path, exists } => (exists, path),
        TerminalProbe::ResolveFailed(e) => {
            let mut s = String::from_str("could not resolve the bundled terminal path: ");
            s.append(e.as_str());
            (false, s)
        },
    }
}

/// The setup message for a given pair of prerequisites.
pub open spec fn setup_message_view(has_sshpass: bool, ttyd_ok: bool) -> Seq<char> {
    if has_sshpass && ttyd_ok {
        "ready for use"@
    } else if !ttyd_ok {
        "the bundled terminal binary is missing"@
    } else {
        "sshpass is needed for password-based SSH"@
    }
}

/// Everything the application probed, handed over as plain values.
#[derive(Debug)]
pub struct SystemProbes {
    pub platform: String,
    pub arch: String,
    pub version_output: Option<String>,
    pub cpu_info: Option<String>,
    pub model_output: Option<String>,
    pub homebrew_candidate: Option<String>,
    pub homebrew_lookup: Option<String>,
    pub has_sshpass: bool,
    pub ttyd_ok: bool,
    pub ttyd_path: String,
}

/// Assembles the system report: every derived field is pinned to the
/// probe values, and the machine is ready for password SSH exactly when
/// both the helper and the bundled terminal are present.
pub fn check_system_info(probes: SystemProbes) -> (r: SystemInfo)
    ensures
        r.platform == probes.platform,
        r.arch == probes.arch,
        r.os_version@ == (match opt_view(probes.version_output) {
            Some(o) => "macOS "@ + trimmed(o),
            None => "macOS Unknown"@,
        }),
        r.chip@ == chip_label(opt_view(probes.cpu_info), opt_view(probes.model_output)),
        r.mac_model@ == (match opt_view(probes.model_output) {
            Some(o) => trimmed(o),
            None => "Unknown"@,
        }),
        r.supported == supported_chip(r.chip@),
        probes.homebrew_candidate matches Some(p) ==> (r.has_homebrew && r.homebrew_path == Some(
            p,
        )),
        probes.homebrew_candidate is None ==> match opt_view(probes.homebrew_lookup) {
            Some(o) => r.has_homebrew && (r.homebrew_path matches Some(p) && p@ == trimmed(o)),
            None => !r.has_homebrew && r.homebrew_path is None,
        },
        r.has_sshpass == probes.has_sshpass,
        r.ttyd_bundled_ok == probes.ttyd_ok,
        r.ttyd_bundled_path == probes.ttyd_path,
        r.needs_setup == !(probes.has_sshpass && probes.ttyd_ok),
        r.ready_for_ssh == (probes.has_sshpass && probes.ttyd_ok),
        r.setup_message@ == setup_message_view(probes.has_sshpass, probes.ttyd_ok),
{
    let chip = detect_apple_chip(&probes.cpu_info, &probes.model_output);
    let supported = is_macos_supported("", chip.as_str());
    let (has_homebrew, homebrew_path) = homebrew_status(
        probes.homebrew_candidate,
        probes.homebrew_lookup,
    );
    let ready_for_ssh = probes.has_sshpass && probes.ttyd_ok;
    let setup_message = if ready_for_ssh {
        String::from_str("ready for use")
    } else if !probes.ttyd_ok {
        String::from_str("the bundled terminal binary is missing")
    } else {
        String::from_str("sshpass is needed for password-based SSH")
    };
    SystemInfo {
        platform: probes.platform,
        arch: probes.arch,
        os_version: macos_version_label(&probes.version_output),
        chip,
        supported,
        has_homebrew,
        has_sshpass: probes.has_sshpass,
        ttyd_bundled_path: probes.ttyd_path,
        ttyd_bundled_ok: probes.ttyd_ok,
        homebrew_path,
        needs_setup: !ready_for_ssh,
        ready_for_ssh,
        setup_message,
        mac_model: mac_model_label(&probes.model_output),
    }
}

/// One progress report of the installation flow, for the application's
/// event channel.
#[derive(Debug)]
pub struct ProgressEvent {
    pub step: String,
    pub percent: u8,
    pub is_error: bool,
    pub details: Option<String>,
}

/// A progress event matches a label, a percentage and optional details.
pub open spec fn progress_is(
    ev: ProgressEvent,
    label: Seq<char>,
    percent: int,
    details: Option<Seq<char>>,
) -> bool {
    &&& ev.step@ == label
    &&& ev.percent as int == percent
    &&& !ev.is_error
    &&& opt_view(ev.details) == details
}

/// The outside work the installation flow asks for next.
#[derive(Debug)]
pub enum InstallStep {
    /// Resolve the bundled terminal binary and test that it exists.
    CheckBundledTerminal,
    /// Probe the package manager's candidate paths and lookup.
    CheckHomebrew,
    /// Run the package manager's install script.
    InstallHomebrew,
    /// Register the repository that carries the password helper.
    TapRepository,
    /// Install the password helper package.
    InstallHelper,
    /// Look the helper up to confirm the installation took.
    VerifyHelper,
}

/// What the application reports back for one step.
#[derive(Debug)]
pub enum StepReport {
    TerminalChecked { ok: bool, path: String },
    HomebrewChecked { present: bool, path: Option<String> },
    Ran(RunReport),
    HelperPresent(bool),
}

/// What follows a step: another step, completion, or failure with the
/// message to report.
#[derive(Debug)]
pub enum InstallNext {
    Run(InstallStep),
    Done,
    Failed(String),
}

/// Opens the installation flow: the first progress event and the first
/// step to run.
pub fn install_flow_start() -> (r: (ProgressEvent, InstallStep))
    ensures
        progress_is(
            r.0,
            "preparing setup"@,
            5,
            Some("verifying the bundled terminal and preparing the helper installation"@),
        ),
        r.1 is CheckBundledTerminal,
{
    (
        ProgressEvent {
            step: String::from_str("preparing setup"),
            percent: 5,
            is_error: false,
            details: Some(
                String::from_str(
                    "verifying the bundled terminal and preparing the helper installation",
                ),
            ),
        },
        InstallStep::CheckBundledTerminal,
    )
}

/// The error text of a failed run: the process's error output, or the
/// spawn error when it never started.
pub open spec fn run_error_view(report: RunReport) -> Seq<char> {
    match report {
        RunReport::SpawnFailed(e) => e@,
        RunReport::Exited { stderr, .. } => stderr@,
    }
}

/// Advances the installation flow by one completed step: emits the
/// progress events the step earned and names what to do next.  A step
/// that failed ends the flow with a message naming the step; a report
/// that does not belong to the step ends it as unexpected.
pub fn install_flow_advance(step: InstallStep, report: StepReport) -> (r: (
    Vec<ProgressEvent>,
    InstallNext,
))
    ensures
        ({
            let (events, next) = r;
            match (step, report) {
                (InstallStep::CheckBundledTerminal, StepReport::TerminalChecked { ok, path }) => if ok {
                    &&& events@.len() == 1
                    &&& progress_is(
                        events@[0],
                        "bundled terminal verified"@,
                        10,
                        Some("terminal ready: "@ + path@),
                    )
                    &&& next == InstallNext::Run(InstallStep::CheckHomebrew)
                } else {
                    &&& events@.len() == 0
                    &&& next matches InstallNext::Failed(m) && m@
                        == "the bundled terminal is not available: "@ + path@
                },
                (InstallStep::CheckHomebrew, StepReport::HomebrewChecked { present, path }) => if present {
                    &&& events@.len() == 2
                    &&& progress_is(
                        events@[0],
                        "Homebrew available"@,
                        50,
                        Some(
                            "path: "@ + (match path {
                                Some(p) => p@,
                                None => "unspecified"@,
                            }),
                        ),
                    )
                    &&& progress_is(
                        events@[1],
                        "setting up the helper repository"@,
                        55,
                        Some("sshpass is needed for password-based SSH"@),
                    )
                    &&& next == InstallNext::Run(InstallStep::TapRepository)
                } else {
                    &&& events@.len() == 2
                    &&& progress_is(
                        events@[0],
                        "installing Homebrew"@,
                        15,
                        Some("Homebrew is needed to install sshpass"@),
                    )
                    &&& progress_is(events@[1], "downloading Homebrew"@, 25, None)
                    &&& next == InstallNext::Run(InstallStep::InstallHomebrew)
                },
                (InstallStep::InstallHomebrew, StepReport::Ran(rep)) => if rep matches
                    RunReport::Exited { success: true, .. } {
                    &&& events@.len() == 2
                    &&& progress_is(events@[0], "Homebrew installed"@, 50, None)
                    &&& progress_is(
                        events@[1],
                        "setting up the helper repository"@,
                        55,
                        Some("sshpass is needed for password-based SSH"@),
                    )
                    &&& next == InstallNext::Run(InstallStep::TapRepository)
                } else {
                    &&& events@.len() == 0
                    &&& next matches InstallNext::Failed(m) && m@
                        == "Homebrew installation failed: "@ + run_error_view(rep)
                },
                (InstallStep::TapRepository, StepReport::Ran(rep)) => if rep matches
                    RunReport::Exited { success: true, .. } {
                    &&& events@.len() == 1
                    &&& progress_is(
                        events@[0],
                        "installing sshpass"@,
                        70,
                        Some("downloading and building sshpass"@),
                    )
                    &&& next == InstallNext::Run(InstallStep::InstallHelper)
                } else {
                    &&& events@.len() == 0
                    &&& next matches InstallNext::Failed(m) && m@
                        == "could not add the helper repository: "@ + run_error_view(rep)
                },
                (InstallStep::InstallHelper, StepReport::Ran(rep)) => if rep matches
                    RunReport::Exited { success: true, .. } {
                    &&& events@.len() == 1
                    &&& progress_is(events@[0], "final verification"@, 90, None)
                    &&& next == InstallNext::Run(InstallStep::VerifyHelper)
                } else {
                    &&& events@.len() == 0
                    &&& next matches InstallNext::Failed(m) && m@
                        == "sshpass installation failed: "@ + run_error_view(rep)
                },
                (InstallStep::VerifyHelper, StepReport::HelperPresent(present)) => if present {
                    &&& events@.len() == 1
                    &&& progress_is(
                        events@[0],
                        "setup complete"@,
                        100,
                        Some("the bundled terminal and sshpass are ready"@),
                    )
                    &&& next == InstallNext::Done
                } else {
                    &&& events@.len() == 0
                    &&& next matches InstallNext::Failed(m) && m@
                        == "sshpass is not available after installation"@
                },
                _ => {
                    &&& events@.len() == 0
                    &&& next matches InstallNext::Failed(m) && m@ == "unexpected step report"@
                },
            }
        }),
{
    let mut events: Vec<ProgressEvent> = Vec::new();
    match (step, report) {
        (InstallStep::CheckBundledTerminal, StepReport::TerminalChecked { ok, path }) => {
            if ok {
                let mut details = String::from_str("terminal ready: ");
                details.append(path.as_str());
                events.push(
                    ProgressEvent {
                        step: String::from_str("bundled terminal verified"),
                        percent: 10,
                        is_error: false,
                        details: Some(details),
                    },
                );
                (events, InstallNext::Run(InstallStep::CheckHomebrew))
            } else {
                let mut m = String::from_str("the bundled terminal is not available: ");
                m.append(path.as_str());
                (events, InstallNext::Failed(m))
            }
        },
        (InstallStep::CheckHomebrew, StepReport::HomebrewChecked { present, path }) => {
            if present {
                let mut details = String::from_str("path: ");
                match &path {
                    Some(p) => details.append(p.as_str()),
                    None => details.append("unspecified"),
                };
                events.push(
                    ProgressEvent {
                        step: String::from_str("Homebrew available"),
                        percent: 50,
                        is_error: false,
                        details: Some(details),
                    },
                );
                events.push(
                    ProgressEvent {
                        step: String::from_str("setting up the helper repository"),
                        percent: 55,
                        is_error: false,
                        details: Some(String::from_str("sshpass is needed for password-based SSH")),
                    },
                );
                (events, InstallNext::Run(InstallStep::TapRepository))
            } else {
                events.push(
                    ProgressEvent {
                        step: String::from_str("installing Homebrew"),
                        percent: 15,
                        is_error: false,
                        details: Some(String::from_str("Homebrew is needed to install sshpass")),
                    },
                );
                events.push(
                    ProgressEvent {
                        step: String::from_str("downloading Homebrew"),
                        percent: 25,
                        is_error: false,
                        details: None,
                    },
                );
                (events, InstallNext::Run(InstallStep::InstallHomebrew))
            }
        },
        (InstallStep::InstallHomebrew, StepReport::Ran(rep)) => match rep {
            RunReport::Exited { success: true, .. } => {
                events.push(
                    ProgressEvent {
                        step: String::from_str("Homebrew installed"),
                        percent: 50,
                        is_error: false,
                        details: None,
                    },
                );
                events.push(
                    ProgressEvent {
                        step: String::from_str("setting up the helper repository"),
                        percent: 55,
                        is_error: false,
                        details: Some(String::from_str("sshpass is needed for password-based SSH")),
                    },
                );
                (events, InstallNext::Run(InstallStep::TapRepository))
            },
            _ => {
                let mut m = String::from_str("Homebrew installation failed: ");
                m.append(run_error_text(&rep).as_str());
                (events, InstallNext::Failed(m))
            },
        },
        (InstallStep::TapRepository, StepReport::Ran(rep)) => match rep {
            RunReport::Exited { success: true, .. } => {
                events.push(
                    ProgressEvent {
                        step: String::from_str("installing sshpass"),
                        percent: 70,
                        is_error: false,
                        details: Some(String::from_str("downloading and building sshpass")),
                    },
                );
                (events, InstallNext::Run(InstallStep::InstallHelper))
            },
            _ => {
                let mut m = String::from_str("could not add the helper repository: ");
                m.append(run_error_text(&rep).as_str());
                (events, InstallNext::Failed(m))
            },
        },
        (InstallStep::InstallHelper, StepReport::Ran(rep)) => match rep {
            RunReport::Exited { success: true, .. } => {
                events.push(
                    ProgressEvent {
                        step: String::from_str("final verification"),
                        percent: 90,
                        is_error: false,
                        details: None,
                    },
                );
                (events, InstallNext::Run(InstallStep::VerifyHelper))
            },
            _ => {
                let mut m = String::from_str("sshpass installation failed: ");
                m.append(run_error_text(&rep).as_str());
                (events, InstallNext::Failed(m))
            },
        },
        (InstallStep::VerifyHelper, StepReport::HelperPresent(present)) => {
            if present {
                events.push(
                    ProgressEvent {
                        step: String::from_str("setup complete"),
                        percent: 100,
                        is_error: false,
                        details: Some(
                            String::from_str("the bundled terminal and sshpass are ready"),
                        ),
                    },
                );
                (events, InstallNext::Done)
            } else {
                (
                    events,
                    InstallNext::Failed(
                        String::from_str("sshpass is not available after installation"),
                    ),
                )
            }
        },
        _ => (events, InstallNext::Failed(String::from_str("unexpected step report"))),
    }
}

/// The error text a failed run contributes to a flow failure.
fn run_error_text(report: &RunReport) -> (r: String)
    ensures
        r@ == run_error_view(*report),
{
    match report {
        RunReport::SpawnFailed(e) => e.clone(),
        RunReport::Exited { stderr, .. } => stderr.clone(),
    }
}

/// The error event the application emits when the flow fails.
pub fn failure_progress(message: &str) -> (r: ProgressEvent)
    ensures
        r.step@ == "installation error"@,
        r.percent == 0,
        r.is_error,
        r.details matches Some(d) && d@ == message@,
{
    ProgressEvent {
        step: String::from_str("installation error"),
        percent: 0,
        is_error: true,
        details: Some(String::from_str(message)),
    }
}

} // verus!
