use ironrdp_rail::backend::{NoopRailBackend, RailBackend};
use ironrdp_rail::pdu::{
    ClientExecute, ClientStatus, ClientStatusFlags, DecodeError, ExecFlags, ExecResult, Handshake,
    RailPdu, ServerExecuteResult,
};
use ironrdp_rail::Rail;

#[derive(Default)]
struct Recorder {
    ready_calls: usize,
    results: Vec<(String, ExecResult, u32)>,
}

impl RailBackend for Recorder {
    fn on_ready(&mut self) {
        self.ready_calls += 1;
    }

    fn on_execute_result(&mut self, exe_or_file: &str, result: ExecResult, raw_result: u32) {
        self.results.push((exe_or_file.to_owned(), result, raw_result));
    }
}

fn exec(exe: &str, dir: &str, args: &str, bits: u16) -> RailPdu {
    RailPdu::ClientExecute(ClientExecute {
        flags: ExecFlags::from_bits_retain(bits),
        exe_or_file: exe.to_owned(),
        working_dir: dir.to_owned(),
        arguments: args.to_owned(),
    })
}

fn handshake_payload(build_number: u32) -> Vec<u8> {
    Handshake::Ex { build_number, rail_handshake_flags: 1 }.encode()
}

#[test]
fn launch_before_handshake_is_queued_and_sent_after() {
    let flags = ClientStatusFlags::from_bits_retain(ClientStatusFlags::ALLOW_LOCAL_MOVE_SIZE);
    let mut rail = Rail::new(Recorder::default(), flags);
    assert!(rail.launch("notepad.exe", "", "").is_empty());
    let sent = rail.process(&handshake_payload(7601)).unwrap();
    assert_eq!(
        sent,
        vec![
            RailPdu::Handshake(Handshake::Basic { build_number: 7601 }),
            RailPdu::ClientStatus(ClientStatus { flags }),
            exec("notepad.exe", "", "", 0),
        ]
    );
    assert_eq!(rail.downcast_backend().ready_calls, 1);
}

#[test]
fn only_latest_queued_launch_is_sent() {
    let mut rail = Rail::new(NoopRailBackend, ClientStatusFlags::empty());
    assert!(rail.launch("first.exe", "", "").is_empty());
    assert!(rail.launch("second.exe", "C:\\", "-x").is_empty());
    let sent = rail.process(&handshake_payload(1)).unwrap();
    assert_eq!(sent.len(), 3);
    assert_eq!(sent[2], exec("second.exe", "C:\\", "-x", 0x0005));
}

#[test]
fn launch_when_ready_is_sent_at_once() {
    let mut rail = Rail::new(Recorder::default(), ClientStatusFlags::empty());
    let sent = rail.process(&handshake_payload(2)).unwrap();
    assert_eq!(sent.len(), 2);
    assert_eq!(rail.launch("calc.exe", "D:\\work", ""), vec![exec("calc.exe", "D:\\work", "", 0x0004)]);
    assert_eq!(rail.launch("calc.exe", "", "a b"), vec![exec("calc.exe", "", "a b", 0x0001)]);
    // a second handshake is answered again, without a launch and without a second readiness report
    let sent = rail.process(&Handshake::Basic { build_number: 3 }.encode()).unwrap();
    assert_eq!(
        sent,
        vec![
            RailPdu::Handshake(Handshake::Basic { build_number: 3 }),
            RailPdu::ClientStatus(ClientStatus { flags: ClientStatusFlags::empty() }),
        ]
    );
    assert_eq!(rail.downcast_backend().ready_calls, 1);
}

#[test]
fn execute_result_is_reported_to_backend() {
    let mut rail = Rail::new(Recorder::default(), ClientStatusFlags::empty());
    let result = ServerExecuteResult {
        flags: ExecFlags::empty(),
        result: ExecResult::FileNotFound,
        raw_result: 2,
        exe_or_file: "missing.exe".to_owned(),
    };
    let sent = rail.process(&result.encode().unwrap()).unwrap();
    assert!(sent.is_empty());
    assert_eq!(
        rail.downcast_backend().results,
        vec![("missing.exe".to_owned(), ExecResult::FileNotFound, 2)]
    );
    rail.downcast_backend_mut().results.clear();
    assert!(rail.downcast_backend().results.is_empty());
}

#[test]
fn client_originated_and_unknown_pdus_are_ignored() {
    let mut rail = Rail::new(Recorder::default(), ClientStatusFlags::empty());
    let status = ClientStatus { flags: ClientStatusFlags::empty() }.encode();
    assert!(rail.process(&status).unwrap().is_empty());
    if let RailPdu::ClientExecute(c) = exec("a.exe", "", "", 0) {
        assert!(rail.process(&c.encode().unwrap()).unwrap().is_empty());
    }
    assert!(rail.process(&[0x50, 0x00, 0x04, 0x00]).unwrap().is_empty());
    // still waiting for the handshake: a launch is queued
    assert!(rail.launch("b.exe", "", "").is_empty());
    assert_eq!(rail.downcast_backend().ready_calls, 0);
}

#[test]
fn undecodable_payload_is_an_error() {
    let mut rail = Rail::new(NoopRailBackend, ClientStatusFlags::empty());
    assert_eq!(
        rail.process(&[0x03, 0x00, 0x08]),
        Err(DecodeError::NotEnoughBytes { received: 3, expected: 4 })
    );
    assert!(rail.launch("x.exe", "", "").is_empty());
}
