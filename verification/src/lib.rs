//! RemoteApp (RAIL) static virtual channel: the wire protocol and the client-side
//! channel state machine that launches and tracks a remote application.
use vstd::prelude::*;

pub mod backend;
pub mod pdu;
pub mod properties;

use backend::RailBackend;
use pdu::{
    handshake_build_number, parse_rail_pdu, wire::u32_at, rail_pdu_in_bounds, ClientExecute, ClientExecuteSpec,
    ClientStatus, ClientStatusFlags, DecodeError, ExecFlags, ExecResult, Handshake, RailPdu,
    RailPduSpec,
};

verus! {

#[derive(Debug, Clone, Copy, PartialEq, Eq, Structural)]
enum RailState {
    /// Waiting for the server's initial Handshake (Ex) PDU.
    AwaitingHandshake,
    /// Handshake completed, channel ready to accept launch requests.
    Ready,
}

/// A remote program launch request, queued when [`Rail::launch`] is called before
/// the handshake has completed.
struct PendingLaunch {
    flags: ExecFlags,
    exe_or_file: String,
    working_dir: String,
    arguments: String,
}

impl View for PendingLaunch {
    type V = ClientExecuteSpec;

    closed spec fn view(&self) -> ClientExecuteSpec {
        ClientExecuteSpec {
            flags: self.flags,
            exe_or_file: self.exe_or_file@,
            working_dir: self.working_dir@,
            arguments: self.arguments@,
        }
    }
}

/// A call that the channel made on its backend.
pub enum BackendCall {
    /// [`RailBackend::on_ready`]
    Ready,
    /// [`RailBackend::on_execute_result`], with its arguments.
    ExecuteResult { exe_or_file: Seq<char>, result: ExecResult, raw_result: u32 },
}

/// The state of a [`Rail`] channel, apart from its backend.
pub struct RailSpec {
    /// Whether the server's handshake has been answered.
    pub ready: bool,
    /// The flags sent in the client status PDU after the handshake.
    pub client_status_flags: ClientStatusFlags,
    /// The launch request waiting for the handshake, if any.
    pub pending_launch: Option<ClientExecuteSpec>,
    /// The calls made on the backend so far, oldest first.
    pub backend_calls: Seq<BackendCall>,
}

/// The PDUs of a message list, strings as character sequences.
pub open spec fn pdus_view(v: Seq<RailPdu>) -> Seq<RailPduSpec> {
    v.map_values(|p: RailPdu| p@)
}

/// The flags of a launch request: working directory and arguments are marked for
/// expansion exactly when they are not empty.
pub open spec fn launch_flags(working_dir: Seq<char>, arguments: Seq<char>) -> ExecFlags {
    ExecFlags {
        bits: (if working_dir.len() > 0 {
            ExecFlags::EXPAND_WORKING_DIRECTORY
        } else {
            0u16
        }) | (if arguments.len() > 0 {
            ExecFlags::EXPAND_ARGUMENTS
        } else {
            0u16
        }),
    }
}

/// The execute request that a launch of these strings sends.
pub open spec fn launch_request(
    exe_or_file: Seq<char>,
    working_dir: Seq<char>,
    arguments: Seq<char>,
) -> ClientExecuteSpec {
    ClientExecuteSpec {
        flags: launch_flags(working_dir, arguments),
        exe_or_file,
        working_dir,
        arguments,
    }
}

/// A launch: sent at once when the channel is ready, else queued in place of any earlier one.
pub open spec fn rail_launch(s: RailSpec, request: ClientExecuteSpec) -> (RailSpec, Seq<RailPduSpec>) {
    if s.ready {
        (s, seq![RailPduSpec::ClientExecute(request)])
    } else {
        (RailSpec { pending_launch: Some(request), ..s }, seq![])
    }
}

/// The answer to a server handshake: a plain handshake echoing the build number,
/// the client status, then the queued launch request if there is one; the channel
/// is then ready with nothing queued, and the backend is told of readiness the
/// first time only.
pub open spec fn rail_handshake(s: RailSpec, h: Handshake) -> (RailSpec, Seq<RailPduSpec>) {
    let answer = seq![
        RailPduSpec::Handshake(Handshake::Basic { build_number: handshake_build_number(h) }),
        RailPduSpec::ClientStatus(ClientStatus { flags: s.client_status_flags }),
    ];
    let queued = match s.pending_launch {
        Some(request) => seq![RailPduSpec::ClientExecute(request)],
        None => Seq::empty(),
    };
    let backend_calls = if s.ready {
        s.backend_calls
    } else {
        s.backend_calls.push(BackendCall::Ready)
    };
    (RailSpec { ready: true, pending_launch: None, backend_calls, ..s }, answer + queued)
}

/// A PDU received from the server: a handshake is answered; an execute result is
/// passed to the backend; any other PDU changes nothing; only a handshake sends anything.
pub open spec fn rail_receive(s: RailSpec, pdu: RailPduSpec) -> (RailSpec, Seq<RailPduSpec>) {
    match pdu {
        RailPduSpec::Handshake(h) => rail_handshake(s, h),
        RailPduSpec::ServerExecuteResult(r) => (
            RailSpec {
                backend_calls: s.backend_calls.push(
                    BackendCall::ExecuteResult {
                        exe_or_file: r.exe_or_file,
                        result: r.result,
                        raw_result: r.raw_result,
                    },
                ),
                ..s
            },
            Seq::empty(),
        ),
        _ => (s, Seq::empty()),
    }
}

/// A payload received from the server: the PDU it decodes to is received; bytes
/// that do not decode give the error.
pub open spec fn rail_process(s: RailSpec, payload: Seq<u8>) -> Result<
    (RailSpec, Seq<RailPduSpec>),
    DecodeError,
> {
    match parse_rail_pdu(payload) {
        Err(e) => Err(e),
        Ok((pdu, _)) => Ok(rail_receive(s, pdu)),
    }
}

/// RAIL (RemoteApp) static virtual channel client-side endpoint.
///
/// Drives the handshake and offers [`Rail::launch`] to request that the server
/// start a remote program.
pub struct Rail<B: RailBackend> {
    backend: B,
    state: RailState,
    client_status_flags: ClientStatusFlags,
    pending_launch: Option<PendingLaunch>,
    backend_calls: Ghost<Seq<BackendCall>>,
}

impl<B: RailBackend> View for Rail<B> {
    type V = RailSpec;

    closed spec fn view(&self) -> RailSpec {
        RailSpec {
            ready: self.state == RailState::Ready,
            client_status_flags: self.client_status_flags,
            pending_launch: match self.pending_launch {
                Some(p) => Some(p@),
                None => None,
            },
            backend_calls: self.backend_calls@,
        }
    }
}

impl<B: RailBackend> Rail<B> {
    /// The backend the channel reports to.
    pub closed spec fn backend(&self) -> B {
        self.backend
    }

    /// Creates a new RAIL channel processor, waiting for the server's handshake.
    ///
    /// `client_status_flags` are sent to the server once the handshake completes;
    /// [`ClientStatusFlags::empty()`] is a safe default.
    pub fn new(backend: B, client_status_flags: ClientStatusFlags) -> (r: Self)
        ensures
            r@ == (RailSpec {
                ready: false,
                client_status_flags,
                pending_launch: None,
                backend_calls: Seq::empty(),
            }),
            r.backend() == backend,
    {
        Rail {
            backend,
            state: RailState::AwaitingHandshake,
            client_status_flags,
            pending_launch: None,
            backend_calls: Ghost(Seq::empty()),
        }
    }

    /// The backend, whose concrete type is the channel's type parameter.
    pub fn downcast_backend(&self) -> (r: &B)
        ensures
            *r == self.backend(),
    {
        &self.backend
    }

    /// The backend, mutably.
    pub fn downcast_backend_mut(&mut self) -> (r: &mut B)
        ensures
            *r == old(self).backend(),
            final(self).backend() == *final(r),
            final(self)@ == old(self)@,
    {
        &mut self.backend
    }

    fn build_exec(request: &PendingLaunch) -> (r: RailPdu)
        ensures
            r@ == RailPduSpec::ClientExecute(request@),
    {
        RailPdu::ClientExecute(
            ClientExecute {
                flags: request.flags,
                exe_or_file: request.exe_or_file.clone(),
                working_dir: request.working_dir.clone(),
                arguments: request.arguments.clone(),
            },
        )
    }

    /// Requests that the server start (or activate) a remote program.
    ///
    /// Before the handshake has completed the request is queued and sent as soon as
    /// it does; only the most recently queued request is kept. Returns the PDUs to
    /// send on the channel, empty when the request was queued.
    pub fn launch(&mut self, exe_or_file: &str, working_dir: &str, arguments: &str) -> (r: Vec<
        RailPdu,
    >)
        ensures
            (final(self)@, pdus_view(r@)) == rail_launch(
                old(self)@,
                launch_request(exe_or_file@, working_dir@, arguments@),
            ),
            final(self).backend() == old(self).backend(),
            old(self)@.ready ==> {
                &&& r@.len() == 1
                &&& r@[0] matches RailPdu::ClientExecute(c)
                &&& c.exe_or_file@ == exe_or_file@
                &&& c.working_dir@ == working_dir@
                &&& c.arguments@ == arguments@
            },
            !old(self)@.ready ==> {
                &&& r@.len() == 0
                &&& final(self)@.pending_launch matches Some(c)
                &&& c.exe_or_file == exe_or_file@
                &&& c.working_dir == working_dir@
                &&& c.arguments == arguments@
            },
    {
        let mut flags = ExecFlags::empty();
        if !working_dir.is_empty() {
            flags = flags.union(ExecFlags::from_bits_retain(ExecFlags::EXPAND_WORKING_DIRECTORY));
        }
        if !arguments.is_empty() {
            flags = flags.union(ExecFlags::from_bits_retain(ExecFlags::EXPAND_ARGUMENTS));
        }
        proof {
            assert(0u16 | 4u16 == 4u16) by (bit_vector);
            assert(0u16 | 0u16 == 0u16) by (bit_vector);
            assert(4u16 | 1u16 == 5u16) by (bit_vector);
            assert(0u16 | 1u16 == 1u16) by (bit_vector);
            assert(4u16 | 0u16 == 4u16) by (bit_vector);
        }
        let request = PendingLaunch {
            flags,
            exe_or_file: exe_or_file.to_owned(),
            working_dir: working_dir.to_owned(),
            arguments: arguments.to_owned(),
        };
        match self.state {
            RailState::Ready => {
                let mut messages: Vec<RailPdu> = Vec::new();
                messages.push(Self::build_exec(&request));
                assert(pdus_view(messages@) =~= seq![RailPduSpec::ClientExecute(request@)]);
                messages
            },
            RailState::AwaitingHandshake => {
                self.pending_launch = Some(request);
                let messages: Vec<RailPdu> = Vec::new();
                assert(pdus_view(messages@) =~= Seq::<RailPduSpec>::empty());
                messages
            },
        }
    }

    /// Answers a server handshake, reporting readiness to the backend the first time.
    fn handle_handshake(&mut self, handshake: Handshake) -> (r: Vec<RailPdu>)
        ensures
            (final(self)@, pdus_view(r@)) == rail_handshake(old(self)@, handshake),
            old(self)@.ready ==> final(self).backend() == old(self).backend(),
    {
        let mut messages: Vec<RailPdu> = Vec::new();
        messages.push(RailPdu::Handshake(Handshake::reply(handshake.build_number())));
        messages.push(RailPdu::ClientStatus(ClientStatus { flags: self.client_status_flags }));
        if self.state == RailState::AwaitingHandshake {
            self.state = RailState::Ready;
            self.backend.on_ready();
            proof {
                self.backend_calls@ = self.backend_calls@.push(BackendCall::Ready);
            }
        }
        let ghost before = pdus_view(messages@);
        match self.pending_launch.take() {
            Some(request) => {
                messages.push(Self::build_exec(&request));
                assert(pdus_view(messages@) =~= before + seq![RailPduSpec::ClientExecute(request@)]);
            },
            None => {
                assert(pdus_view(messages@) =~= before + Seq::<RailPduSpec>::empty());
            },
        }
        messages
    }

    /// Processes a PDU received from the server on the channel, returning the PDUs
    /// to send back.
    ///
    /// A handshake is answered; an execute result is reported to the backend; any
    /// other PDU is ignored.
    pub fn process(&mut self, payload: &[u8]) -> (r: Result<Vec<RailPdu>, DecodeError>)
        requires
            rail_pdu_in_bounds(payload@),
        ensures
            r matches Ok(messages) ==> rail_process(old(self)@, payload@) == Ok::<_, DecodeError>(
                (final(self)@, pdus_view(messages@)),
            ),
            r matches Err(e) ==> rail_process(old(self)@, payload@) == Err::<
                (RailSpec, Seq<RailPduSpec>),
                _,
            >(e) && final(self)@ == old(self)@,
            r is Err ==> final(self).backend() == old(self).backend(),
            parse_rail_pdu(payload@) matches Ok((RailPduSpec::ServerExecuteResult(res), _)) ==> {
                &&& r is Ok
                &&& r->Ok_0@.len() == 0
                &&& final(self)@.backend_calls == old(self)@.backend_calls.push(
                    BackendCall::ExecuteResult {
                        exe_or_file: res.exe_or_file,
                        result: res.result,
                        raw_result: res.raw_result,
                    },
                )
            },
            parse_rail_pdu(payload@) matches Ok((RailPduSpec::Handshake(h), _)) ==> {
                &&& r is Ok
                &&& pdus_view(r->Ok_0@).len() >= 2
                &&& pdus_view(r->Ok_0@)[0] == RailPduSpec::Handshake(
                    Handshake::Basic { build_number: u32_at(payload@, 4) },
                )
            },
            parse_rail_pdu(payload@) matches Ok((RailPduSpec::ClientStatus(_), _))
                ==> final(self).backend() == old(self).backend(),
            parse_rail_pdu(payload@) matches Ok((RailPduSpec::ClientExecute(_), _))
                ==> final(self).backend() == old(self).backend(),
            parse_rail_pdu(payload@) matches Ok((RailPduSpec::Unknown { .. }, _))
                ==> final(self).backend() == old(self).backend(),
            parse_rail_pdu(payload@) matches Ok((RailPduSpec::Handshake(_), _)) && old(self)@.ready
                ==> final(self).backend() == old(self).backend(),
    {
        let (pdu, _) = RailPdu::decode(payload)?;
        match pdu {
            RailPdu::Handshake(handshake) => {
                let messages = self.handle_handshake(handshake);
                assert(handshake_build_number(handshake) == u32_at(payload@, 4));
                Ok(messages)
            },
            RailPdu::ServerExecuteResult(result) => {
                self.backend.on_execute_result(
                    result.exe_or_file.as_str(),
                    result.result,
                    result.raw_result,
                );
                proof {
                    self.backend_calls@ = self.backend_calls@.push(
                        BackendCall::ExecuteResult {
                            exe_or_file: result.exe_or_file@,
                            result: result.result,
                            raw_result: result.raw_result,
                        },
                    );
                }
                let messages: Vec<RailPdu> = Vec::new();
                assert(pdus_view(messages@) =~= Seq::<RailPduSpec>::empty());
                Ok(messages)
            },
            RailPdu::ClientStatus(_) | RailPdu::ClientExecute(_) | RailPdu::Unknown { .. } => {
                let messages: Vec<RailPdu> = Vec::new();
                assert(pdus_view(messages@) =~= Seq::<RailPduSpec>::empty());
                Ok(messages)
            },
        }
    }
}

} // verus!
