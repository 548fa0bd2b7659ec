use vstd::prelude::*;
use vstd::slice::slice_to_vec;
use vstd::string::StringSliceAdditionalSpecFns;

use crate::command::append_bytes;
use crate::error::AGError;
use crate::framing::{frame, frame_of, okay_token, status_is_okay, MAX_FRAME_LEN};

verus! {

/// A device-bound service that a session can run.
pub enum Service {
    /// `shell:<cmd>`: runs a command in a terminal on the device.
    Shell,
    /// `exec:<cmd>`: runs a command without a terminal; its output is raw bytes.
    Exec,
    /// `host:connect:<target>`: attaches a target to the server.
    Connect,
}

/// What the device answered: whether it acknowledged the service, and every
/// byte it sent until it closed the stream.
#[derive(Debug)]
pub struct RecvData {
    pub is_ok: bool,
    pub data: Vec<u8>,
}

/// What the socket reports back to the session after carrying out an action.
pub enum Event {
    /// The bytes asked for were written.
    Sent,
    /// Four status bytes were read.
    Status([u8; 4]),
    /// The stream was read until the peer closed it.
    Drained(Vec<u8>),
    /// A new socket to the same peer is open, with the same timeouts.
    Redialed,
    /// The socket operation failed or timed out.
    Failed(std::io::Error),
}

/// What the session asks of its socket next.
pub enum Action {
    /// Write these bytes.
    Send(Vec<u8>),
    /// Read four status bytes.
    ReadStatus,
    /// Read until the peer closes the stream.
    ReadToEnd,
    /// Replace the socket by a new one dialed to the same peer.
    Redial,
    /// The command is over; this is its result.
    Finish(Result<RecvData, AGError>),
}

/// Where a session stands; every command in flight ends by re-dialing.
pub enum Phase {
    /// A freshly dialed socket, no command in flight.
    Idle,
    /// The last re-dial failed: the next command dials before anything else.
    Stale,
    /// A command waits for a fresh socket before its handshake.
    Reopening,
    /// The transport request is being written.
    TransportSending,
    /// Waiting for the status of the transport request.
    TransportStatus,
    /// The service request is being written.
    ServiceSending,
    /// Waiting for the status of the service request.
    ServiceStatus,
    /// Reading the output until the stream ends.
    Draining(bool),
    /// Re-dialing after the command; the result is held until the socket is
    /// fresh again.
    Closing(Result<RecvData, AGError>),
}

// ---------------------------------------------------------------------------
// Mathematical model

/// An error, as far as the protocol tells errors apart.
pub enum Fault {
    Io,
    Decode,
    Image,
    Custom(Seq<char>),
}

/// The result of a command: acknowledgement and output, or a fault.
pub type Reply = Result<(bool, Seq<u8>), Fault>;

pub enum EventModel {
    Sent,
    Status(Seq<u8>),
    Drained(Seq<u8>),
    Redialed,
    Failed,
}

pub enum ActionModel {
    Send(Seq<u8>),
    ReadStatus,
    ReadToEnd,
    Redial,
    Finish(Reply),
}

pub enum PhaseModel {
    Idle,
    Stale,
    Reopening,
    TransportSending,
    TransportStatus,
    ServiceSending,
    ServiceStatus,
    Draining(bool),
    Closing(Reply),
}

/// A session seen as plain values: the selected target, the phase, and the
/// two frames of the command in flight with the target it selects, if any.
pub struct SessionModel {
    pub target: Seq<char>,
    pub phase: PhaseModel,
    pub transport: Seq<u8>,
    pub request: Seq<u8>,
    pub new_target: Option<Seq<char>>,
}

pub open spec fn fault_of(e: AGError) -> Fault {
    match e {
        AGError::Io(_) => Fault::Io,
        AGError::Decode => Fault::Decode,
        AGError::Image(_) => Fault::Image,
        AGError::Custom(m) => Fault::Custom(m@),
    }
}

pub open spec fn reply_of(r: Result<RecvData, AGError>) -> Reply {
    match r {
        Ok(d) => Ok((d.is_ok, d.data@)),
        Err(e) => Err(fault_of(e)),
    }
}

impl View for Event {
    type V = EventModel;

    open spec fn view(&self) -> EventModel {
        match self {
            Event::Sent => EventModel::Sent,
            Event::Status(s) => EventModel::Status(s@),
            Event::Drained(d) => EventModel::Drained(d@),
            Event::Redialed => EventModel::Redialed,
            Event::Failed(_) => EventModel::Failed,
        }
    }
}

impl View for Action {
    type V = ActionModel;

    open spec fn view(&self) -> ActionModel {
        match self {
            Action::Send(b) => ActionModel::Send(b@),
            Action::ReadStatus => ActionModel::ReadStatus,
            Action::ReadToEnd => ActionModel::ReadToEnd,
            Action::Redial => ActionModel::Redial,
            Action::Finish(r) => ActionModel::Finish(reply_of(*r)),
        }
    }
}

impl View for Phase {
    type V = PhaseModel;

    open spec fn view(&self) -> PhaseModel {
        match self {
            Phase::Idle => PhaseModel::Idle,
            Phase::Stale => PhaseModel::Stale,
            Phase::Reopening => PhaseModel::Reopening,
            Phase::TransportSending => PhaseModel::TransportSending,
            Phase::TransportStatus => PhaseModel::TransportStatus,
            Phase::ServiceSending => PhaseModel::ServiceSending,
            Phase::ServiceStatus => PhaseModel::ServiceStatus,
            Phase::Draining(ok) => PhaseModel::Draining(*ok),
            Phase::Closing(r) => PhaseModel::Closing(reply_of(*r)),
        }
    }
}

/// Whether a command is in flight.
pub open spec fn busy(p: PhaseModel) -> bool {
    !(p is Idle || p is Stale)
}

/// The text that announces a service, before its argument.
pub open spec fn service_prefix(s: Service) -> Seq<u8> {
    match s {
        Service::Shell => "shell:".spec_bytes(),
        Service::Exec => "exec:".spec_bytes(),
        Service::Connect => "host:connect:".spec_bytes(),
    }
}

/// Payload of the handshake that binds a connection to `target`.
pub open spec fn transport_payload(target: Seq<char>) -> Seq<u8> {
    "host:transport:".spec_bytes() + utf8(target)
}

/// UTF-8 bytes of a text.
pub open spec fn utf8(s: Seq<char>) -> Seq<u8> {
    vstd::utf8::encode_utf8(s)
}

/// Starting a command: both frames are laid out before anything is sent, and
/// a payload too long to frame fails the command at once, leaving the session
/// as it was.
pub open spec fn begin_model(s: SessionModel, service: Service, arg: Seq<char>) -> (
    SessionModel,
    ActionModel,
) {
    let t = transport_payload(s.target);
    let q = service_prefix(service) + utf8(arg);
    if t.len() > MAX_FRAME_LEN || q.len() > MAX_FRAME_LEN {
        (s, ActionModel::Finish(Err(Fault::Custom("frame too long"@))))
    } else {
        let s1 = SessionModel {
            target: s.target,
            phase: if s.phase is Stale {
                PhaseModel::Reopening
            } else {
                PhaseModel::TransportSending
            },
            transport: frame_of(t),
            request: frame_of(q),
            new_target: if service is Connect {
                Some(arg)
            } else {
                None
            },
        };
        (
            s1,
            if s.phase is Stale {
                ActionModel::Redial
            } else {
                ActionModel::Send(frame_of(t))
            },
        )
    }
}

/// The error that ends a command on an event its phase does not expect.
pub open spec fn out_of_sequence() -> Fault {
    Fault::Custom("event out of sequence"@)
}

/// The session after a command's result is known: it re-dials before
/// handing the result over.
pub open spec fn closing_with(s: SessionModel, r: Reply) -> (SessionModel, ActionModel) {
    (SessionModel { phase: PhaseModel::Closing(r), ..s }, ActionModel::Redial)
}

/// One step of a command in flight: the next phase and what the socket must
/// do. Any failure or unexpected event, and a refused transport, still
/// re-dial before the command finishes; the result is handed over only once
/// the socket is fresh, and only then does `host:connect` select its target.
pub open spec fn step_model(s: SessionModel, e: EventModel) -> (SessionModel, ActionModel) {
    match s.phase {
        PhaseModel::Closing(r) => match e {
            EventModel::Redialed => (
                SessionModel {
                    phase: PhaseModel::Idle,
                    target: if r is Ok && s.new_target is Some {
                        s.new_target.unwrap()
                    } else {
                        s.target
                    },
                    ..s
                },
                ActionModel::Finish(r),
            ),
            EventModel::Failed => (
                SessionModel { phase: PhaseModel::Stale, ..s },
                ActionModel::Finish(Err(Fault::Io)),
            ),
            _ => (
                SessionModel { phase: PhaseModel::Stale, ..s },
                ActionModel::Finish(Err(out_of_sequence())),
            ),
        },
        PhaseModel::Reopening => match e {
            EventModel::Redialed => (
                SessionModel { phase: PhaseModel::TransportSending, ..s },
                ActionModel::Send(s.transport),
            ),
            EventModel::Failed => (
                SessionModel { phase: PhaseModel::Stale, ..s },
                ActionModel::Finish(Err(Fault::Io)),
            ),
            _ => closing_with(s, Err(out_of_sequence())),
        },
        _ => match (s.phase, e) {
            (_, EventModel::Failed) => closing_with(s, Err(Fault::Io)),
            (PhaseModel::TransportSending, EventModel::Sent) => (
                SessionModel { phase: PhaseModel::TransportStatus, ..s },
                ActionModel::ReadStatus,
            ),
            (PhaseModel::TransportStatus, EventModel::Status(st)) => if st == okay_token() {
                (SessionModel { phase: PhaseModel::ServiceSending, ..s }, ActionModel::Send(s.request))
            } else {
                closing_with(s, Err(Fault::Custom("transport fail"@)))
            },
            (PhaseModel::ServiceSending, EventModel::Sent) => (
                SessionModel { phase: PhaseModel::ServiceStatus, ..s },
                ActionModel::ReadStatus,
            ),
            (PhaseModel::ServiceStatus, EventModel::Status(st)) => (
                SessionModel { phase: PhaseModel::Draining(st == okay_token()), ..s },
                ActionModel::ReadToEnd,
            ),
            (PhaseModel::Draining(ok), EventModel::Drained(d)) => closing_with(s, Ok((ok, d))),
            _ => closing_with(s, Err(out_of_sequence())),
        },
    }
}

// ---------------------------------------------------------------------------
// Laws

/// A `shell` or `exec` command that the server acknowledges, run on a fresh
/// socket, sends the transport frame then the service frame, reads the output
/// to its end, re-dials, and returns the acknowledged output unchanged.
pub proof fn lemma_acknowledged_command(
    s: SessionModel,
    service: Service,
    cmd: Seq<char>,
    out: Seq<u8>,
)
    requires
        s.phase is Idle,
        !(service is Connect),
        transport_payload(s.target).len() <= MAX_FRAME_LEN,
        (service_prefix(service) + utf8(cmd)).len() <= MAX_FRAME_LEN,
    ensures
        ({
            let (s1, a1) = begin_model(s, service, cmd);
            let (s2, a2) = step_model(s1, EventModel::Sent);
            let (s3, a3) = step_model(s2, EventModel::Status(okay_token()));
            let (s4, a4) = step_model(s3, EventModel::Sent);
            let (s5, a5) = step_model(s4, EventModel::Status(okay_token()));
            let (s6, a6) = step_model(s5, EventModel::Drained(out));
            let (s7, a7) = step_model(s6, EventModel::Redialed);
            &&& a1 == ActionModel::Send(frame_of(transport_payload(s.target)))
            &&& a2 == ActionModel::ReadStatus
            &&& a3 == ActionModel::Send(frame_of(service_prefix(service) + utf8(cmd)))
            &&& a4 == ActionModel::ReadStatus
            &&& a5 == ActionModel::ReadToEnd
            &&& a6 == ActionModel::Redial
            &&& a7 == ActionModel::Finish(Ok((true, out)))
            &&& s7.phase is Idle
            &&& s7.target == s.target
        }),
{
}

/// `host:connect` selects the requested target once it has drained and
/// re-dialed, whatever status the server gave the request.
pub proof fn lemma_connect_selects_target(
    s: SessionModel,
    target: Seq<char>,
    status: Seq<u8>,
    out: Seq<u8>,
)
    requires
        s.phase is Idle,
        transport_payload(s.target).len() <= MAX_FRAME_LEN,
        (service_prefix(Service::Connect) + utf8(target)).len() <= MAX_FRAME_LEN,
    ensures
        ({
            let (s1, a1) = begin_model(s, Service::Connect, target);
            let (s2, a2) = step_model(s1, EventModel::Sent);
            let (s3, a3) = step_model(s2, EventModel::Status(okay_token()));
            let (s4, a4) = step_model(s3, EventModel::Sent);
            let (s5, a5) = step_model(s4, EventModel::Status(status));
            let (s6, a6) = step_model(s5, EventModel::Drained(out));
            let (s7, a7) = step_model(s6, EventModel::Redialed);
            &&& a7 == ActionModel::Finish(Ok((status == okay_token(), out)))
            &&& s7.target == target
            &&& s7.phase is Idle
        }),
{
}

/// A command never finishes on the socket it ran on: a result is handed over
/// only in answer to a re-dial, and a successful one only once the new socket
/// is open, leaving the session idle on it. A session whose re-dial failed
/// dials again before its next command sends anything.
pub proof fn lemma_every_command_redials(s: SessionModel, e: EventModel)
    ensures
        busy(s.phase) ==> ({
            let (s2, a) = step_model(s, e);
            &&& a is Finish ==> (s.phase is Closing || s.phase is Reopening) && !busy(s2.phase)
            &&& a is Finish && s2.phase is Idle ==> s.phase is Closing && e is Redialed
            &&& (a matches ActionModel::Finish(Ok(_))) ==> s.phase is Closing && e is Redialed
                && s2.phase is Idle
        }),
        forall|service: Service, arg: Seq<char>|
            s.phase is Stale ==> {
                let (s1, a1) = #[trigger] begin_model(s, service, arg);
                a1 is Redial || a1 is Finish
            },
{
}

// ---------------------------------------------------------------------------
// The session

/// One live connection to the control-plane server and the target that its
/// device-bound commands apply to. The socket itself belongs to the caller,
/// who carries out each [`Action`] and reports the [`Event`] that followed.
pub struct Session {
    target: String,
    phase: Phase,
    transport: Vec<u8>,
    request: Vec<u8>,
    new_target: Option<String>,
}

impl View for Session {
    type V = SessionModel;

    closed spec fn view(&self) -> SessionModel {
        SessionModel {
            target: self.target@,
            phase: self.phase@,
            transport: self.transport@,
            request: self.request@,
            new_target: match self.new_target {
                Some(t) => Some(t@),
                None => None,
            },
        }
    }
}

fn text_copy(s: &str) -> (r: String)
    ensures
        r@ == s@,
{
    s.to_owned()
}

fn error_text(s: &str) -> (r: AGError)
    ensures
        fault_of(r) == Fault::Custom(s@),
{
    AGError::Custom(s.to_owned())
}

impl Session {
    /// A session on a freshly dialed socket, with `target` selected.
    pub fn new(target: &str) -> (r: Session)
        ensures
            r@ == (SessionModel {
                target: target@,
                phase: PhaseModel::Idle,
                transport: Seq::empty(),
                request: Seq::empty(),
                new_target: None,
            }),
    {
        Session {
            target: text_copy(target),
            phase: Phase::Idle,
            transport: Vec::new(),
            request: Vec::new(),
            new_target: None,
        }
    }

    /// The selected target.
    pub fn target(&self) -> (r: &str)
        ensures
            r@ == self@.target,
    {
        self.target.as_str()
    }

    /// Whether a command is in flight.
    pub fn is_busy(&self) -> (r: bool)
        ensures
            r == busy(self@.phase),
    {
        match self.phase {
            Phase::Idle | Phase::Stale => false,
            _ => true,
        }
    }

    /// Starts `service` with argument `arg`; returns the first action.
    pub fn begin(&mut self, service: Service, arg: &str) -> (r: Action)
        requires
            !busy(old(self)@.phase),
        ensures
            (final(self)@, r@) == begin_model(old(self)@, service, arg@),
    {
        let mut t: Vec<u8> = Vec::new();
        append_bytes(&mut t, "host:transport:".as_bytes());
        append_bytes(&mut t, self.target.as_str().as_bytes());
        let mut q: Vec<u8> = Vec::new();
        match service {
            Service::Shell => append_bytes(&mut q, "shell:".as_bytes()),
            Service::Exec => append_bytes(&mut q, "exec:".as_bytes()),
            Service::Connect => append_bytes(&mut q, "host:connect:".as_bytes()),
        }
        append_bytes(&mut q, arg.as_bytes());
        if t.len() > MAX_FRAME_LEN || q.len() > MAX_FRAME_LEN {
            return Action::Finish(Err(error_text("frame too long")));
        }
        let tf = match frame(t.as_slice()) {
            Ok(f) => f,
            Err(e) => return Action::Finish(Err(e)),
        };
        let qf = match frame(q.as_slice()) {
            Ok(f) => f,
            Err(e) => return Action::Finish(Err(e)),
        };
        self.new_target = match service {
            Service::Connect => Some(text_copy(arg)),
            _ => None,
        };
        self.request = qf;
        let first = slice_to_vec(tf.as_slice());
        self.transport = tf;
        match self.phase {
            Phase::Stale => {
                self.phase = Phase::Reopening;
                Action::Redial
            },
            _ => {
                self.phase = Phase::TransportSending;
                Action::Send(first)
            },
        }
    }

    /// Moves the command in flight on by one event; returns the next action.
    pub fn step(&mut self, ev: Event) -> (r: Action)
        requires
            busy(old(self)@.phase),
        ensures
            (final(self)@, r@) == step_model(old(self)@, ev@),
    {
        let mut phase = Phase::Idle;
        std::mem::swap(&mut phase, &mut self.phase);
        match phase {
            Phase::Closing(r) => match ev {
                Event::Redialed => {
                    if r.is_ok() {
                        match &self.new_target {
                            Some(t) => {
                                self.target = t.clone();
                            },
                            None => {},
                        }
                    }
                    Action::Finish(r)
                },
                Event::Failed(e) => {
                    self.phase = Phase::Stale;
                    Action::Finish(Err(AGError::Io(e)))
                },
                _ => {
                    self.phase = Phase::Stale;
                    Action::Finish(Err(error_text("event out of sequence")))
                },
            },
            Phase::Reopening => match ev {
                Event::Redialed => {
                    self.phase = Phase::TransportSending;
                    Action::Send(slice_to_vec(self.transport.as_slice()))
                },
                Event::Failed(e) => {
                    self.phase = Phase::Stale;
                    Action::Finish(Err(AGError::Io(e)))
                },
                _ => self.close(Err(error_text("event out of sequence"))),
            },
            Phase::TransportSending => match ev {
                Event::Sent => {
                    self.phase = Phase::TransportStatus;
                    Action::ReadStatus
                },
                Event::Failed(e) => self.close(Err(AGError::Io(e))),
                _ => self.close(Err(error_text("event out of sequence"))),
            },
            Phase::TransportStatus => match ev {
                Event::Status(st) => {
                    if status_is_okay(&st) {
                        self.phase = Phase::ServiceSending;
                        Action::Send(slice_to_vec(self.request.as_slice()))
                    } else {
                        self.close(Err(error_text("transport fail")))
                    }
                },
                Event::Failed(e) => self.close(Err(AGError::Io(e))),
                _ => self.close(Err(error_text("event out of sequence"))),
            },
            Phase::ServiceSending => match ev {
                Event::Sent => {
                    self.phase = Phase::ServiceStatus;
                    Action::ReadStatus
                },
                Event::Failed(e) => self.close(Err(AGError::Io(e))),
                _ => self.close(Err(error_text("event out of sequence"))),
            },
            Phase::ServiceStatus => match ev {
                Event::Status(st) => {
                    self.phase = Phase::Draining(status_is_okay(&st));
                    Action::ReadToEnd
                },
                Event::Failed(e) => self.close(Err(AGError::Io(e))),
                _ => self.close(Err(error_text("event out of sequence"))),
            },
            Phase::Draining(ok) => match ev {
                Event::Drained(d) => self.close(Ok(RecvData { is_ok: ok, data: d })),
                Event::Failed(e) => self.close(Err(AGError::Io(e))),
                _ => self.close(Err(error_text("event out of sequence"))),
            },
            Phase::Idle | Phase::Stale => match ev {
                Event::Failed(e) => self.close(Err(AGError::Io(e))),
                _ => self.close(Err(error_text("event out of sequence"))),
            },
        }
    }

    fn close(&mut self, r: Result<RecvData, AGError>) -> (a: Action)
        ensures
            (final(self)@, a@) == closing_with(old(self)@, reply_of(r)),
    {
        self.phase = Phase::Closing(r);
        Action::Redial
    }
}

} // verus!
