use vstd::prelude::*;

use crate::error::AGError;
use crate::session::{Fault, PhaseModel, Session, SessionModel, fault_of};

verus! {

/// Server address used when none is given: loopback, the server's well-known
/// port.
pub open spec fn default_addr() -> Seq<char> {
    "127.0.0.1:5037"@
}

/// Read and write timeout used when none is given, in milliseconds.
pub const DEFAULT_TIMEOUT_MS: u64 = 3000;

/// Server executable used when none is given, by operating system.
pub open spec fn default_bin_path(windows: bool) -> Seq<char> {
    if windows {
        "adb.exe"@
    } else {
        "adb"@
    }
}

/// Target selected when none is given: a loopback device.
pub open spec fn default_target() -> Seq<char> {
    "127.0.0.1:5555"@
}

/// The settings a builder was given, each one optional.
pub struct BuilderModel {
    pub addr: Option<Seq<char>>,
    pub timeout_ms: Option<u64>,
    pub bin_path: Option<Seq<char>>,
    pub target: Option<Seq<char>>,
}

pub open spec fn text_of(s: Option<String>) -> Option<Seq<char>> {
    match s {
        Some(t) => Some(t@),
        None => None,
    }
}

/// Collects the connection settings; whatever is left unset takes its
/// default when the connection is built.
pub struct AdbBuilder {
    addr: Option<String>,
    timeout_ms: Option<u64>,
    bin_path: Option<String>,
    target: Option<String>,
}

impl View for AdbBuilder {
    type V = BuilderModel;

    closed spec fn view(&self) -> BuilderModel {
        BuilderModel {
            addr: text_of(self.addr),
            timeout_ms: self.timeout_ms,
            bin_path: text_of(self.bin_path),
            target: text_of(self.target),
        }
    }
}

fn owned(s: &str) -> (r: String)
    ensures
        r@ == s@,
{
    s.to_owned()
}

/// The settings a connection is built with, every default filled in.
pub struct Config {
    pub addr: String,
    pub timeout_ms: u64,
    pub bin_path: String,
    pub target: String,
    /// Whether the target was chosen by the caller, and is to be attached
    /// before the session is handed over.
    pub connect: bool,
}

impl Default for AdbBuilder {
    fn default() -> (r: AdbBuilder)
        ensures
            r@ == (BuilderModel { addr: None, timeout_ms: None, bin_path: None, target: None }),
    {
        AdbBuilder { addr: None, timeout_ms: None, bin_path: None, target: None }
    }
}

impl AdbBuilder {
    /// A builder with nothing set.
    pub fn new() -> (r: AdbBuilder)
        ensures
            r@ == (BuilderModel { addr: None, timeout_ms: None, bin_path: None, target: None }),
    {
        AdbBuilder::default()
    }

    /// Sets the server address.
    pub fn with_addr(self, addr: &str) -> (r: AdbBuilder)
        ensures
            r@ == (BuilderModel { addr: Some(addr@), ..self@ }),
    {
        AdbBuilder { addr: Some(owned(addr)), ..self }
    }

    /// Sets the read and write timeout, in milliseconds.
    pub fn with_timeout(self, timeout_ms: u64) -> (r: AdbBuilder)
        ensures
            r@ == (BuilderModel { timeout_ms: Some(timeout_ms), ..self@ }),
    {
        AdbBuilder { timeout_ms: Some(timeout_ms), ..self }
    }

    /// Sets the path of the server executable.
    pub fn with_bin_path(self, bin_path: &str) -> (r: AdbBuilder)
        ensures
            r@ == (BuilderModel { bin_path: Some(bin_path@), ..self@ }),
    {
        AdbBuilder { bin_path: Some(owned(bin_path)), ..self }
    }

    /// Sets the target, which is then attached as the connection is built.
    pub fn with_target(self, target: &str) -> (r: AdbBuilder)
        ensures
            r@ == (BuilderModel { target: Some(target@), ..self@ }),
    {
        AdbBuilder { target: Some(owned(target)), ..self }
    }

    /// The settings with their defaults filled in; `windows` says which
    /// operating system the server executable is named for.
    pub fn resolve(self, windows: bool) -> (r: Config)
        ensures
            r@ == resolved(self@, windows),
    {
        let addr = match self.addr {
            Some(a) => a,
            None => owned("127.0.0.1:5037"),
        };
        let timeout_ms = match self.timeout_ms {
            Some(t) => t,
            None => DEFAULT_TIMEOUT_MS,
        };
        let bin_path = match self.bin_path {
            Some(b) => b,
            None => if windows {
                owned("adb.exe")
            } else {
                owned("adb")
            },
        };
        let connect = self.target.is_some();
        let target = match self.target {
            Some(t) => t,
            None => owned("127.0.0.1:5555"),
        };
        Config { addr, timeout_ms, bin_path, target, connect }
    }

    /// Starts building a connection with these settings: returns the
    /// bootstrap and its first action, a dial of the server address.
    pub fn build(self, windows: bool) -> (r: (Bootstrap, BootAction))
        ensures
            r.0.config() == resolved(self@, windows),
            r.0.phase() == BootPhase::FirstDial,
            r.1@ == BootActionModel::Dial(r.0.config().addr),
    {
        Bootstrap::start(self.resolve(windows))
    }
}

/// How far `build` has got.
#[derive(PartialEq, Eq, Structural, Clone, Copy)]
pub enum BootPhase {
    /// The first dial of the server address is under way.
    FirstDial,
    /// The dial failed; the server executable is being started.
    StartingDaemon,
    /// The one further dial after starting the server.
    SecondDial,
    /// Connected; the timeouts are being applied.
    Configuring,
    /// Over, one way or the other.
    Finished,
}

/// What the caller reports after carrying out a bootstrap action.
pub enum BootEvent {
    Done,
    Failed(std::io::Error),
}

/// What `build` asks of the caller next.
pub enum BootAction {
    /// Open a socket to this address.
    Dial(String),
    /// Start the server executable at this path with `start-server`, without
    /// waiting for it.
    StartDaemon(String),
    /// Apply this read and write timeout, in milliseconds, to the socket.
    SetTimeouts(u64),
    /// The socket is ready: this session runs on it. When the flag is set,
    /// `host:connect` for the session's target is to run before it is handed
    /// over.
    Ready(Session, bool),
    /// `build` failed.
    Fail(AGError),
}

pub enum BootActionModel {
    Dial(Seq<char>),
    StartDaemon(Seq<char>),
    SetTimeouts(u64),
    Ready(SessionModel, bool),
    Fail(Fault),
}

impl View for BootAction {
    type V = BootActionModel;

    open spec fn view(&self) -> BootActionModel {
        match self {
            BootAction::Dial(a) => BootActionModel::Dial(a@),
            BootAction::StartDaemon(p) => BootActionModel::StartDaemon(p@),
            BootAction::SetTimeouts(t) => BootActionModel::SetTimeouts(*t),
            BootAction::Ready(s, c) => BootActionModel::Ready(s@, *c),
            BootAction::Fail(e) => BootActionModel::Fail(fault_of(*e)),
        }
    }
}

/// The settings of a bootstrap, as plain values.
pub struct ConfigModel {
    pub addr: Seq<char>,
    pub timeout_ms: u64,
    pub bin_path: Seq<char>,
    pub target: Seq<char>,
    pub connect: bool,
}

impl View for Config {
    type V = ConfigModel;

    open spec fn view(&self) -> ConfigModel {
        ConfigModel {
            addr: self.addr@,
            timeout_ms: self.timeout_ms,
            bin_path: self.bin_path@,
            target: self.target@,
            connect: self.connect,
        }
    }
}

/// The settings a builder resolves to: each one given, or its default. The
/// target is attached while building only when it was given.
pub open spec fn resolved(b: BuilderModel, windows: bool) -> ConfigModel {
    ConfigModel {
        addr: match b.addr {
            Some(a) => a,
            None => default_addr(),
        },
        timeout_ms: match b.timeout_ms {
            Some(t) => t,
            None => DEFAULT_TIMEOUT_MS,
        },
        bin_path: match b.bin_path {
            Some(p) => p,
            None => default_bin_path(windows),
        },
        target: match b.target {
            Some(t) => t,
            None => default_target(),
        },
        connect: b.target is Some,
    }
}

/// The session a finished bootstrap hands over: idle, on its target.
pub open spec fn fresh_session(target: Seq<char>) -> SessionModel {
    SessionModel {
        target,
        phase: PhaseModel::Idle,
        transport: Seq::empty(),
        request: Seq::empty(),
        new_target: None,
    }
}

/// One step of `build`: a failed first dial starts the server once and dials
/// once more; any other failure ends it.
pub open spec fn boot_step(c: ConfigModel, p: BootPhase, ok: bool) -> (BootPhase, BootActionModel) {
    match p {
        BootPhase::FirstDial => if ok {
            (BootPhase::Configuring, BootActionModel::SetTimeouts(c.timeout_ms))
        } else {
            (BootPhase::StartingDaemon, BootActionModel::StartDaemon(c.bin_path))
        },
        BootPhase::StartingDaemon => if ok {
            (BootPhase::SecondDial, BootActionModel::Dial(c.addr))
        } else {
            (BootPhase::Finished, BootActionModel::Fail(Fault::Io))
        },
        BootPhase::SecondDial => if ok {
            (BootPhase::Configuring, BootActionModel::SetTimeouts(c.timeout_ms))
        } else {
            (BootPhase::Finished, BootActionModel::Fail(Fault::Io))
        },
        BootPhase::Configuring => if ok {
            (BootPhase::Finished, BootActionModel::Ready(fresh_session(c.target), c.connect))
        } else {
            (BootPhase::Finished, BootActionModel::Fail(Fault::Io))
        },
        BootPhase::Finished => (BootPhase::Finished, BootActionModel::Fail(Fault::Io)),
    }
}

/// Position of a phase in the order `build` goes through them.
pub open spec fn boot_rank(p: BootPhase) -> nat {
    match p {
        BootPhase::FirstDial => 0,
        BootPhase::StartingDaemon => 1,
        BootPhase::SecondDial => 2,
        BootPhase::Configuring => 3,
        BootPhase::Finished => 4,
    }
}

/// The decisions of `build`: the caller dials, starts the server and applies
/// timeouts as asked, and reports how each went.
pub struct Bootstrap {
    config: Config,
    phase: BootPhase,
}

impl Bootstrap {
    pub closed spec fn config(&self) -> ConfigModel {
        self.config@
    }

    pub closed spec fn phase(&self) -> BootPhase {
        self.phase
    }

    /// A bootstrap for `config`, and its first action: dial the server.
    pub fn start(config: Config) -> (r: (Bootstrap, BootAction))
        ensures
            r.0.config() == config@,
            r.0.phase() == BootPhase::FirstDial,
            r.1@ == BootActionModel::Dial(config@.addr),
    {
        let addr = config.addr.clone();
        (Bootstrap { config, phase: BootPhase::FirstDial }, BootAction::Dial(addr))
    }

    /// Whether `build` is over.
    pub fn is_finished(&self) -> (r: bool)
        ensures
            r == (self.phase() == BootPhase::Finished),
    {
        self.phase == BootPhase::Finished
    }

    /// Moves on by the outcome of the last action; returns the next one.
    pub fn step(&mut self, ev: BootEvent) -> (r: BootAction)
        requires
            old(self).phase() != BootPhase::Finished,
        ensures
            final(self).config() == old(self).config(),
            (final(self).phase(), r@) == boot_step(old(self).config(), old(self).phase(), ev is Done),
    {
        match ev {
            BootEvent::Done => match self.phase {
                BootPhase::FirstDial | BootPhase::SecondDial => {
                    self.phase = BootPhase::Configuring;
                    BootAction::SetTimeouts(self.config.timeout_ms)
                },
                BootPhase::StartingDaemon => {
                    self.phase = BootPhase::SecondDial;
                    BootAction::Dial(self.config.addr.clone())
                },
                _ => {
                    self.phase = BootPhase::Finished;
                    BootAction::Ready(Session::new(self.config.target.as_str()), self.config.connect)
                },
            },
            BootEvent::Failed(e) => match self.phase {
                BootPhase::FirstDial => {
                    self.phase = BootPhase::StartingDaemon;
                    BootAction::StartDaemon(self.config.bin_path.clone())
                },
                _ => {
                    self.phase = BootPhase::Finished;
                    BootAction::Fail(AGError::Io(e))
                },
            },
        }
    }
}

/// Against an address where nothing listens, `build` dials, starts the
/// server once, dials exactly once more, and fails when that dial fails.
pub proof fn lemma_no_server_one_retry(c: ConfigModel)
    ensures
        ({
            let (ph1, a1) = boot_step(c, BootPhase::FirstDial, false);
            let (ph2, a2) = boot_step(c, ph1, true);
            let (ph3, a3) = boot_step(c, ph2, false);
            &&& a1 == BootActionModel::StartDaemon(c.bin_path)
            &&& a2 == BootActionModel::Dial(c.addr)
            &&& a3 == BootActionModel::Fail(Fault::Io)
            &&& ph3 == BootPhase::Finished
        }),
{
}

/// `build` never goes back: every step moves it strictly forward, so the
/// server is started at most once and the address dialed at most twice.
pub proof fn lemma_boot_moves_forward(c: ConfigModel, p: BootPhase, ok: bool)
    requires
        p != BootPhase::Finished,
    ensures
        boot_rank(boot_step(c, p, ok).0) > boot_rank(p),
        boot_step(c, p, ok).1 is StartDaemon ==> p == BootPhase::FirstDial,
        boot_step(c, p, ok).1 is Dial ==> p == BootPhase::StartingDaemon,
{
}

} // verus!
