//! Properties of the channel state machine over its whole life.
use vstd::prelude::*;

use crate::pdu::roundtrip::{lemma_rail_pdu_roundtrip, rail_pdu_is_canonical};
use crate::pdu::{
    handshake_build_number, handshake_bytes, rail_pdu_bytes, ClientExecuteSpec, ClientStatus,
    ClientStatusFlags, ExecFlags, Handshake, RailPduSpec, ServerExecuteResultSpec, parse_rail_pdu,
};
use crate::pdu::wire::u32_at;
use crate::{
    launch_flags, launch_request, rail_handshake, rail_launch, rail_process, rail_receive,
    BackendCall, RailSpec,
};

verus! {

/// How many times the backend was told of readiness.
pub open spec fn ready_count(calls: Seq<BackendCall>) -> nat
    decreases calls.len(),
{
    if calls.len() == 0 {
        0
    } else {
        ready_count(calls.drop_last()) + if calls.last() is Ready {
            1nat
        } else {
            0nat
        }
    }
}

/// A channel state that is ready never holds a queued launch, and the backend has
/// been told of readiness once if the channel is ready, else never.
pub open spec fn rail_spec_wf(s: RailSpec) -> bool {
    &&& s.ready ==> s.pending_launch is None
    &&& ready_count(s.backend_calls) == if s.ready {
        1nat
    } else {
        0nat
    }
}

proof fn lemma_ready_count_push(calls: Seq<BackendCall>, c: BackendCall)
    ensures
        ready_count(calls.push(c)) == ready_count(calls) + if c is Ready {
            1nat
        } else {
            0nat
        },
{
    assert(calls.push(c).drop_last() =~= calls);
}

/// A fresh channel is well-formed.
pub proof fn lemma_new_wf(client_status_flags: ClientStatusFlags)
    ensures
        rail_spec_wf(
            RailSpec {
                ready: false,
                client_status_flags,
                pending_launch: None,
                backend_calls: Seq::empty(),
            },
        ),
{
}

/// Every step from a well-formed state gives a well-formed state; so the backend
/// is told of readiness exactly once, at the first handshake. Once ready, a channel
/// stays ready.
pub proof fn lemma_steps_keep_wf_and_ready(
    s: RailSpec,
    request: ClientExecuteSpec,
    h: Handshake,
    payload: Seq<u8>,
)
    requires
        rail_spec_wf(s),
    ensures
        rail_spec_wf(rail_launch(s, request).0),
        rail_spec_wf(rail_handshake(s, h).0),
        rail_process(s, payload) matches Ok((s2, _)) ==> rail_spec_wf(s2),
        s.ready ==> rail_launch(s, request).0.ready,
        rail_handshake(s, h).0.ready,
        s.ready ==> (rail_process(s, payload) matches Ok((s2, _)) ==> s2.ready),
{
    lemma_ready_count_push(s.backend_calls, BackendCall::Ready);
    if let Ok((RailPduSpec::ServerExecuteResult(r), _)) = crate::pdu::parse_rail_pdu(payload) {
        lemma_ready_count_push(
            s.backend_calls,
            BackendCall::ExecuteResult {
                exe_or_file: r.exe_or_file,
                result: r.result,
                raw_result: r.raw_result,
            },
        );
    }
}

/// A launch on a ready channel sends its execute request at once and changes nothing.
pub proof fn lemma_launch_when_ready(s: RailSpec, request: ClientExecuteSpec)
    requires
        s.ready,
    ensures
        rail_launch(s, request) == (s, seq![RailPduSpec::ClientExecute(request)]),
{
}

/// A launch before the handshake sends nothing; the handshake answer then carries
/// the plain handshake reply, the client status and that launch request, in that
/// order, and leaves the channel ready with nothing queued.
pub proof fn lemma_queued_launch_sent_on_handshake(
    s: RailSpec,
    request: ClientExecuteSpec,
    h: Handshake,
)
    requires
        !s.ready,
    ensures
        ({
            let (s1, sent1) = rail_launch(s, request);
            let (s2, sent2) = rail_handshake(s1, h);
            &&& sent1.len() == 0
            &&& sent2 == seq![
                RailPduSpec::Handshake(Handshake::Basic { build_number: handshake_build_number(h) }),
                RailPduSpec::ClientStatus(ClientStatus { flags: s.client_status_flags }),
                RailPduSpec::ClientExecute(request),
            ]
            &&& s2 == RailSpec {
                ready: true,
                pending_launch: None,
                backend_calls: s.backend_calls.push(BackendCall::Ready),
                ..s
            }
        }),
{
    let (s1, _) = rail_launch(s, request);
    let (_, sent2) = rail_handshake(s1, h);
    assert(sent2 =~= seq![
        RailPduSpec::Handshake(Handshake::Basic { build_number: handshake_build_number(h) }),
        RailPduSpec::ClientStatus(ClientStatus { flags: s.client_status_flags }),
        RailPduSpec::ClientExecute(request),
    ]);
}

/// Of two launches before the handshake only the later one is sent.
pub proof fn lemma_only_latest_launch_kept(
    s: RailSpec,
    first: ClientExecuteSpec,
    second: ClientExecuteSpec,
    h: Handshake,
)
    requires
        !s.ready,
    ensures
        ({
            let (s1, _) = rail_launch(s, first);
            let (s2, _) = rail_launch(s1, second);
            rail_handshake(s2, h) == rail_handshake(rail_launch(s, second).0, h)
        }),
{
    let (s1, _) = rail_launch(s, first);
    let (s2, _) = rail_launch(s1, second);
    assert(s2 == rail_launch(s, second).0);
}

/// The handshake answer always starts with a plain (never Ex) handshake carrying the
/// server's build number, then the client status with the configured flags; a channel
/// that is already ready with nothing queued sends just these two and stays as it
/// was, without telling the backend of readiness again.
pub proof fn lemma_handshake_answer(s: RailSpec, h: Handshake)
    ensures
        ({
            let (s2, sent) = rail_handshake(s, h);
            &&& sent.len() >= 2
            &&& sent[0] == RailPduSpec::Handshake(
                Handshake::Basic { build_number: handshake_build_number(h) },
            )
            &&& sent[1] == RailPduSpec::ClientStatus(
                ClientStatus { flags: s.client_status_flags },
            )
            &&& (s.ready && s.pending_launch is None) ==> s2 == s && sent.len() == 2
        }),
{
}

/// Processing the encoding of a PDU receives that PDU, whatever bytes follow it.
pub proof fn lemma_process_encoded(s: RailSpec, pdu: RailPduSpec, rest: Seq<u8>)
    requires
        rail_pdu_bytes(pdu) is Ok,
        rail_pdu_is_canonical(pdu),
    ensures
        rail_process(s, rail_pdu_bytes(pdu)->Ok_0 + rest) == Ok::<_, crate::pdu::DecodeError>(
            rail_receive(s, pdu),
        ),
{
    lemma_rail_pdu_roundtrip(pdu, rest);
}

/// Processing the encoding of a handshake answers that handshake, whatever follows it.
pub proof fn lemma_process_encoded_handshake(s: RailSpec, h: Handshake, rest: Seq<u8>)
    ensures
        rail_process(s, handshake_bytes(h) + rest) == Ok::<_, crate::pdu::DecodeError>(
            rail_handshake(s, h),
        ),
{
    lemma_process_encoded(s, RailPduSpec::Handshake(h), rest);
}

/// A launch marks the working directory for expansion exactly when it is not empty,
/// and the arguments exactly when they are not empty; no other flag is set.
pub proof fn lemma_launch_flags(working_dir: Seq<char>, arguments: Seq<char>)
    ensures
        ({
            let bits = launch_flags(working_dir, arguments).bits;
            &&& (bits & ExecFlags::EXPAND_WORKING_DIRECTORY != 0) == (working_dir.len() > 0)
            &&& (bits & ExecFlags::EXPAND_ARGUMENTS != 0) == (arguments.len() > 0)
            &&& bits & !(ExecFlags::EXPAND_WORKING_DIRECTORY | ExecFlags::EXPAND_ARGUMENTS) == 0
        }),
{
    assert(0u16 | 0u16 == 0u16 && 4u16 | 0u16 == 4u16 && 0u16 | 1u16 == 1u16 && 4u16 | 1u16
        == 5u16) by (bit_vector);
    assert(0u16 & 4u16 == 0u16 && 0u16 & 1u16 == 0u16 && 4u16 & 4u16 != 0u16 && 4u16 & 1u16 == 0u16
        && 1u16 & 4u16 == 0u16 && 1u16 & 1u16 != 0u16 && 5u16 & 4u16 != 0u16 && 5u16 & 1u16
        != 0u16) by (bit_vector);
    assert(0u16 & !(4u16 | 1u16) == 0u16 && 4u16 & !(4u16 | 1u16) == 0u16 && 1u16 & !(4u16 | 1u16)
        == 0u16 && 5u16 & !(4u16 | 1u16) == 0u16) by (bit_vector);
}

/// Every execute result received is passed on to the backend with its file name,
/// result and raw result, in whatever state the channel is, and nothing is sent
/// back; the rest of the state is untouched.
pub proof fn lemma_execute_result_always_reported(s: RailSpec, r: ServerExecuteResultSpec)
    ensures
        ({
            let (s2, sent) = rail_receive(s, RailPduSpec::ServerExecuteResult(r));
            &&& sent.len() == 0
            &&& s2.backend_calls.len() == s.backend_calls.len() + 1
            &&& s2.backend_calls.last() == (BackendCall::ExecuteResult {
                exe_or_file: r.exe_or_file,
                result: r.result,
                raw_result: r.raw_result,
            })
            &&& s2.backend_calls.drop_last() == s.backend_calls
            &&& s2.ready == s.ready
            &&& s2.pending_launch == s.pending_launch
            &&& s2.client_status_flags == s.client_status_flags
        }),
{
    let (s2, _) = rail_receive(s, RailPduSpec::ServerExecuteResult(r));
    assert(s2.backend_calls.drop_last() =~= s.backend_calls);
}

/// The plain handshake sent back carries the build number held in bytes 4..8 of
/// the handshake received, for the plain and the Ex kind alike.
pub proof fn lemma_handshake_reply_echoes_bytes(s: RailSpec, payload: Seq<u8>)
    requires
        parse_rail_pdu(payload) matches Ok((RailPduSpec::Handshake(_), _)),
    ensures
        ({
            &&& rail_process(s, payload) matches Ok((_, sent))
            &&& sent.len() >= 2
            &&& sent[0] == RailPduSpec::Handshake(
                Handshake::Basic { build_number: u32_at(payload, 4) },
            )
        }),
{
}

/// A launch request carries the program, working directory and arguments it was
/// given, unchanged: sent at once when ready, else queued and sent after the reply
/// and client status when the handshake arrives.
pub proof fn lemma_launch_carries_strings(
    s: RailSpec,
    exe_or_file: Seq<char>,
    working_dir: Seq<char>,
    arguments: Seq<char>,
    h: Handshake,
)
    ensures
        ({
            let (s1, sent) = rail_launch(s, launch_request(exe_or_file, working_dir, arguments));
            let (_, answer) = rail_handshake(s1, h);
            &&& s.ready ==> {
                &&& sent.len() == 1
                &&& sent[0] matches RailPduSpec::ClientExecute(c)
                &&& c.exe_or_file == exe_or_file
                &&& c.working_dir == working_dir
                &&& c.arguments == arguments
            }
            &&& !s.ready ==> {
                &&& answer.len() == 3
                &&& answer[2] matches RailPduSpec::ClientExecute(c)
                &&& c.exe_or_file == exe_or_file
                &&& c.working_dir == working_dir
                &&& c.arguments == arguments
            }
        }),
{
}

/// A client status, a client execute request or an unknown order received from the
/// server changes nothing and sends nothing back.
pub proof fn lemma_other_pdus_ignored(s: RailSpec, pdu: RailPduSpec)
    requires
        pdu is ClientStatus || pdu is ClientExecute || pdu is Unknown,
    ensures
        rail_receive(s, pdu) == (s, Seq::<RailPduSpec>::empty()),
{
}

} // verus!
