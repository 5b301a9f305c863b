//! Supervision of the external media-signaling backend: its runtime
//! configuration file and the sequence of steps that starts it.
use vstd::prelude::*;

use crate::text::{decimal, push_decimal, push_str, string_of};

verus! {

/// The largest listening port whose derived ports (`port + 1` up to
/// `port + 12`) are still valid port numbers.
pub const MAX_BACKEND_PORT: u16 = 65523;

/// A line of the configuration file.
pub open spec fn line(s: Seq<char>) -> Seq<char> {
    s.push('\n')
}

/// The TURN/TCP port derived from the listening port.
pub open spec fn turn_port(port: nat) -> nat {
    port + 1
}

/// The listening section: port, external-IP use and, where known, the
/// node IP pinned so the backend does not depend on STUN.
pub open spec fn listen_section(port: nat, ip: Option<Seq<char>>) -> Seq<char> {
    line("port: "@ + decimal(port)) + line("rtc:"@) + line("    use_external_ip: true"@) + match ip {
        Some(a) => line("    node_ip: "@ + a),
        None => Seq::empty(),
    }
}

/// The UDP media port range, the TURN/TCP port and the credential keypair.
pub open spec fn ports_and_keys_section(port: nat, key: Seq<char>, secret: Seq<char>) -> Seq<char> {
    line("    port_range_start: "@ + decimal(port + 2)) + line("    port_range_end: "@ + decimal(
        port + 12,
    )) + line("    tcp_port: "@ + decimal(turn_port(port))) + line("keys:"@) + line(
        "    "@ + key + ": "@ + secret,
    )
}

/// The built-in TURN server, enabled only where the external IP is known.
pub open spec fn turn_section(port: nat, ip: Option<Seq<char>>) -> Seq<char> {
    match ip {
        Some(a) => line("turn:"@) + line("    enabled: true"@) + line("    domain: "@ + a) + line(
            "    tls_port: 0"@,
        ) + line("    udp_port: "@ + decimal(turn_port(port))) + line("    external_tls: false"@),
        None => Seq::empty(),
    }
}

pub open spec fn logging_section() -> Seq<char> {
    line("logging:"@) + line("    level: info"@)
}

/// The runtime configuration of the backend: listening port, UDP media port
/// range, TURN/TCP port, the credential keypair and, where the external IP
/// is known, NAT-traversal hints.
pub open spec fn config_text(key: Seq<char>, secret: Seq<char>, port: nat, ip: Option<Seq<char>>) -> Seq<
    char,
> {
    listen_section(port, ip) + ports_and_keys_section(port, key, secret) + turn_section(port, ip)
        + logging_section()
}

fn push_line_end(out: &mut Vec<char>)
    ensures
        final(out)@ == old(out)@.push('\n'),
{
    out.push('\n');
}

fn push_listen_section(out: &mut Vec<char>, port: u16, external_ip: Option<&str>)
    ensures
        final(out)@ == old(out)@ + listen_section(port as nat, crate::text::opt_chars(external_ip)),
{
    let ghost start = out@;
    push_str(out, "port: ");
    push_decimal(out, port as u64);
    push_line_end(out);
    push_str(out, "rtc:");
    push_line_end(out);
    push_str(out, "    use_external_ip: true");
    push_line_end(out);
    let ghost head = out@;
    if let Some(ip) = external_ip {
        push_str(out, "    node_ip: ");
        push_str(out, ip);
        push_line_end(out);
    }
    proof {
        let ip = crate::text::opt_chars(external_ip);
        assert(head =~= start + line("port: "@ + decimal(port as nat)) + line("rtc:"@) + line(
            "    use_external_ip: true"@,
        ));
        assert(out@ =~= start + listen_section(port as nat, ip));
    }
}

fn push_ports_and_keys_section(out: &mut Vec<char>, port: u16, api_key: &str, api_secret: &str)
    requires
        port <= MAX_BACKEND_PORT,
    ensures
        final(out)@ == old(out)@ + ports_and_keys_section(port as nat, api_key@, api_secret@),
{
    let ghost start = out@;
    push_str(out, "    port_range_start: ");
    push_decimal(out, (port + 2) as u64);
    push_line_end(out);
    push_str(out, "    port_range_end: ");
    push_decimal(out, (port + 12) as u64);
    push_line_end(out);
    push_str(out, "    tcp_port: ");
    push_decimal(out, (port + 1) as u64);
    push_line_end(out);
    push_str(out, "keys:");
    push_line_end(out);
    push_str(out, "    ");
    push_str(out, api_key);
    push_str(out, ": ");
    push_str(out, api_secret);
    push_line_end(out);
    assert(out@ =~= start + ports_and_keys_section(port as nat, api_key@, api_secret@));
}

fn push_turn_section(out: &mut Vec<char>, port: u16, external_ip: Option<&str>)
    requires
        port <= MAX_BACKEND_PORT,
    ensures
        final(out)@ == old(out)@ + turn_section(port as nat, crate::text::opt_chars(external_ip)),
{
    let ghost start = out@;
    if let Some(ip) = external_ip {
        push_str(out, "turn:");
        push_line_end(out);
        push_str(out, "    enabled: true");
        push_line_end(out);
        push_str(out, "    domain: ");
        push_str(out, ip);
        push_line_end(out);
        push_str(out, "    tls_port: 0");
        push_line_end(out);
        push_str(out, "    udp_port: ");
        push_decimal(out, (port + 1) as u64);
        push_line_end(out);
        push_str(out, "    external_tls: false");
        push_line_end(out);
    }
    assert(out@ =~= start + turn_section(port as nat, crate::text::opt_chars(external_ip)));
}

/// The configuration file for a backend listening on `port`.
pub fn livekit_config(api_key: &str, api_secret: &str, port: u16, external_ip: Option<&str>) -> (r:
    String)
    requires
        port <= MAX_BACKEND_PORT,
    ensures
        r@ == config_text(api_key@, api_secret@, port as nat, crate::text::opt_chars(external_ip)),
{
    let mut out: Vec<char> = Vec::new();
    push_listen_section(&mut out, port, external_ip);
    push_ports_and_keys_section(&mut out, port, api_key, api_secret);
    push_turn_section(&mut out, port, external_ip);
    push_str(&mut out, "logging:");
    push_line_end(&mut out);
    push_str(&mut out, "    level: info");
    push_line_end(&mut out);
    assert(out@ =~= config_text(
        api_key@,
        api_secret@,
        port as nat,
        crate::text::opt_chars(external_ip),
    ));
    string_of(&out)
}

} // verus!

verus! {

/// Where the backend executable is looked for, in this order.
#[derive(Debug, Clone, Copy, PartialEq, Eq, Structural)]
pub enum BinaryLocation {
    /// The directory of this process's own executable.
    ExeDir,
    /// A `bin` directory beside it.
    ExeBinDir,
    /// The current working directory.
    WorkingDir,
    /// The system executable search path.
    SearchPath,
}

/// The next location after `loc`, if any.
pub open spec fn next_location(loc: BinaryLocation) -> Option<BinaryLocation> {
    match loc {
        BinaryLocation::ExeDir => Some(BinaryLocation::ExeBinDir),
        BinaryLocation::ExeBinDir => Some(BinaryLocation::WorkingDir),
        BinaryLocation::WorkingDir => Some(BinaryLocation::SearchPath),
        BinaryLocation::SearchPath => None,
    }
}

/// Where the start sequence stands.
#[derive(Debug, Clone, Copy, PartialEq, Eq, Structural)]
pub enum StartStage {
    Locating(BinaryLocation),
    WritingConfig,
    CheckingPort,
    RemovingConfig,
    Spawning,
    WarmingUp,
    /// Over: `true` where a managed backend now runs.
    Finished(bool),
}

/// What the caller performs next for the start sequence.
#[derive(Debug, Clone, Copy, PartialEq, Eq, Structural)]
pub enum StartAction {
    /// Look for the executable at this location.
    Probe(BinaryLocation),
    /// Write the generated configuration to its temporary file.
    WriteConfig,
    /// Try a TCP connect to the listening port on the loopback address.
    CheckPort,
    /// Delete the generated configuration file.
    RemoveConfig,
    /// Start the executable, detached, with silenced output, on the config.
    Spawn,
    /// Wait the warm-up period.
    WarmUp,
    /// The sequence is over: `true` where a managed backend now runs.
    Finish(bool),
}

/// What the caller reports after performing an action.
#[derive(Debug, Clone, Copy, PartialEq, Eq, Structural)]
pub enum StartEvent {
    Probed { found: bool },
    ConfigWritten { ok: bool },
    PortChecked { answered: bool },
    ConfigRemoved,
    Spawned { ok: bool },
    WarmedUp,
}

/// The start sequence's state: its stage, whether the generated config file
/// is on disk and whether a process was spawned.
#[derive(Debug, Clone, Copy, PartialEq, Eq, Structural)]
pub struct Startup {
    pub stage: StartStage,
    pub config_on_disk: bool,
    pub spawned: bool,
}

/// Whether `ev` answers the action of stage `stage`.
pub open spec fn answers(stage: StartStage, ev: StartEvent) -> bool {
    match (stage, ev) {
        (StartStage::Locating(_), StartEvent::Probed { .. }) => true,
        (StartStage::WritingConfig, StartEvent::ConfigWritten { .. }) => true,
        (StartStage::CheckingPort, StartEvent::PortChecked { .. }) => true,
        (StartStage::RemovingConfig, StartEvent::ConfigRemoved) => true,
        (StartStage::Spawning, StartEvent::Spawned { .. }) => true,
        (StartStage::WarmingUp, StartEvent::WarmedUp) => true,
        _ => false,
    }
}

/// The action that goes with a stage.
pub open spec fn action_of(stage: StartStage) -> StartAction {
    match stage {
        StartStage::Locating(loc) => StartAction::Probe(loc),
        StartStage::WritingConfig => StartAction::WriteConfig,
        StartStage::CheckingPort => StartAction::CheckPort,
        StartStage::RemovingConfig => StartAction::RemoveConfig,
        StartStage::Spawning => StartAction::Spawn,
        StartStage::WarmingUp => StartAction::WarmUp,
        StartStage::Finished(up) => StartAction::Finish(up),
    }
}

/// The state after `ev`. The first location holding the executable wins;
/// none ⇒ the sequence ends without a backend. A listening port that already
/// answers means an instance is managed elsewhere: the config is removed and
/// nothing is spawned. A failed spawn removes the config too.
pub open spec fn next_startup(s: Startup, ev: StartEvent) -> Startup {
    match (s.stage, ev) {
        (StartStage::Locating(loc), StartEvent::Probed { found }) => if found {
            Startup { stage: StartStage::WritingConfig, ..s }
        } else {
            match next_location(loc) {
                Some(n) => Startup { stage: StartStage::Locating(n), ..s },
                None => Startup { stage: StartStage::Finished(false), ..s },
            }
        },
        (StartStage::WritingConfig, StartEvent::ConfigWritten { ok }) => if ok {
            Startup { stage: StartStage::CheckingPort, config_on_disk: true, ..s }
        } else {
            Startup { stage: StartStage::Finished(false), ..s }
        },
        (StartStage::CheckingPort, StartEvent::PortChecked { answered }) => if answered {
            Startup { stage: StartStage::RemovingConfig, ..s }
        } else {
            Startup { stage: StartStage::Spawning, ..s }
        },
        (StartStage::RemovingConfig, StartEvent::ConfigRemoved) => Startup {
            stage: StartStage::Finished(false),
            config_on_disk: false,
            ..s
        },
        (StartStage::Spawning, StartEvent::Spawned { ok }) => if ok {
            Startup { stage: StartStage::WarmingUp, spawned: true, ..s }
        } else {
            Startup { stage: StartStage::RemovingConfig, ..s }
        },
        (StartStage::WarmingUp, StartEvent::WarmedUp) => Startup {
            stage: StartStage::Finished(true),
            ..s
        },
        _ => s,
    }
}

impl Startup {
    /// Nothing is spawned before the spawn step, and the config file is on
    /// disk exactly between writing it and removing it.
    pub open spec fn wf(self) -> bool {
        match self.stage {
            StartStage::Locating(_) | StartStage::WritingConfig => !self.config_on_disk
                && !self.spawned,
            StartStage::CheckingPort | StartStage::Spawning => self.config_on_disk && !self.spawned,
            StartStage::RemovingConfig => self.config_on_disk && !self.spawned,
            StartStage::WarmingUp => self.config_on_disk && self.spawned,
            StartStage::Finished(up) => up == self.spawned && (up ==> self.config_on_disk) && (!up
                ==> !self.config_on_disk),
        }
    }

    /// A fresh start sequence and its first action.
    pub fn begin() -> (r: (Startup, StartAction))
        ensures
            r.0.wf(),
            r.0.stage == StartStage::Locating(BinaryLocation::ExeDir),
            r.1 == action_of(r.0.stage),
    {
        let s = Startup {
            stage: StartStage::Locating(BinaryLocation::ExeDir),
            config_on_disk: false,
            spawned: false,
        };
        (s, StartAction::Probe(BinaryLocation::ExeDir))
    }

    /// Takes in the outcome of the last action and gives the next one.
    pub fn step(&mut self, ev: StartEvent) -> (r: StartAction)
        requires
            old(self).wf(),
            answers(old(self).stage, ev),
        ensures
            *final(self) == next_startup(*old(self), ev),
            final(self).wf(),
            r == action_of(final(self).stage),
    {
        let n = advance(*self, ev);
        proof {
            lemma_next_wf(*self, ev);
        }
        *self = n;
        action_for(n.stage)
    }
}

proof fn lemma_next_wf(s: Startup, ev: StartEvent)
    requires
        s.wf(),
        answers(s.stage, ev),
    ensures
        next_startup(s, ev).wf(),
{
}

fn advance(s: Startup, ev: StartEvent) -> (r: Startup)
    ensures
        r == next_startup(s, ev),
{
    match (s.stage, ev) {
        (StartStage::Locating(loc), StartEvent::Probed { found }) => if found {
            Startup { stage: StartStage::WritingConfig, ..s }
        } else {
            match loc {
                BinaryLocation::ExeDir => Startup {
                    stage: StartStage::Locating(BinaryLocation::ExeBinDir),
                    ..s
                },
                BinaryLocation::ExeBinDir => Startup {
                    stage: StartStage::Locating(BinaryLocation::WorkingDir),
                    ..s
                },
                BinaryLocation::WorkingDir => Startup {
                    stage: StartStage::Locating(BinaryLocation::SearchPath),
                    ..s
                },
                BinaryLocation::SearchPath => Startup { stage: StartStage::Finished(false), ..s },
            }
        },
        (StartStage::WritingConfig, StartEvent::ConfigWritten { ok }) => if ok {
            Startup { stage: StartStage::CheckingPort, config_on_disk: true, ..s }
        } else {
            Startup { stage: StartStage::Finished(false), ..s }
        },
        (StartStage::CheckingPort, StartEvent::PortChecked { answered }) => if answered {
            Startup { stage: StartStage::RemovingConfig, ..s }
        } else {
            Startup { stage: StartStage::Spawning, ..s }
        },
        (StartStage::RemovingConfig, StartEvent::ConfigRemoved) => Startup {
            stage: StartStage::Finished(false),
            config_on_disk: false,
            ..s
        },
        (StartStage::Spawning, StartEvent::Spawned { ok }) => if ok {
            Startup { stage: StartStage::WarmingUp, spawned: true, ..s }
        } else {
            Startup { stage: StartStage::RemovingConfig, ..s }
        },
        (StartStage::WarmingUp, StartEvent::WarmedUp) => Startup {
            stage: StartStage::Finished(true),
            ..s
        },
        _ => s,
    }
}

fn action_for(stage: StartStage) -> (r: StartAction)
    ensures
        r == action_of(stage),
{
    match stage {
        StartStage::Locating(loc) => StartAction::Probe(loc),
        StartStage::WritingConfig => StartAction::WriteConfig,
        StartStage::CheckingPort => StartAction::CheckPort,
        StartStage::RemovingConfig => StartAction::RemoveConfig,
        StartStage::Spawning => StartAction::Spawn,
        StartStage::WarmingUp => StartAction::WarmUp,
        StartStage::Finished(up) => StartAction::Finish(up),
    }
}

/// When the listening port already answers, the sequence removes the
/// config it wrote and ends without a backend: nothing was spawned and no
/// generated config file is left on disk.
pub proof fn lemma_port_taken_starts_nothing(s: Startup)
    requires
        s.wf(),
        s.stage == StartStage::CheckingPort,
    ensures
        ({
            let s1 = next_startup(s, StartEvent::PortChecked { answered: true });
            let s2 = next_startup(s1, StartEvent::ConfigRemoved);
            &&& action_of(s1.stage) == StartAction::RemoveConfig
            &&& action_of(s2.stage) == StartAction::Finish(false)
            &&& !s1.spawned && !s2.spawned
            &&& !s2.config_on_disk
        }),
{
}

} // verus!
