use ironrdp_rail::pdu::{
    rail_string_byte_len, ClientExecute, ClientStatus, ClientStatusFlags, DecodeError, EncodeError,
    ExecFlags, ExecResult, Handshake, RailField, RailPdu, ServerExecuteResult,
};

fn execute(exe: &str, dir: &str, args: &str) -> ClientExecute {
    ClientExecute {
        flags: ExecFlags::from_bits_retain(ExecFlags::EXPAND_ARGUMENTS),
        exe_or_file: exe.to_owned(),
        working_dir: dir.to_owned(),
        arguments: args.to_owned(),
    }
}

#[test]
fn handshake_basic_bytes() {
    let h = Handshake::Basic { build_number: 0x1234 };
    assert_eq!(h.encode(), vec![0x03, 0x00, 0x08, 0x00, 0x34, 0x12, 0x00, 0x00]);
    assert_eq!(h.size(), 8);
    assert_eq!(h.name(), "TS_RAIL_ORDER_HANDSHAKE");
}

#[test]
fn handshake_ex_bytes_and_roundtrip() {
    let h = Handshake::Ex { build_number: 7601, rail_handshake_flags: 0x0000_0001 };
    let bytes = h.encode();
    assert_eq!(bytes, vec![0x12, 0x00, 0x0C, 0x00, 0xB1, 0x1D, 0x00, 0x00, 0x01, 0x00, 0x00, 0x00]);
    assert_eq!(h.size(), bytes.len());
    assert_eq!(Handshake::decode(&bytes), Ok((h, 12)));
    assert_eq!(RailPdu::decode(&bytes), Ok((RailPdu::Handshake(h), 12)));
    assert_eq!(h.name(), "TS_RAIL_ORDER_HANDSHAKE");
}

#[test]
fn handshake_reply_is_basic() {
    let server = Handshake::Ex { build_number: 42, rail_handshake_flags: 9 };
    let reply = Handshake::reply(server.build_number());
    assert_eq!(reply, Handshake::Basic { build_number: 42 });
    assert_eq!(reply.build_number(), 42);
}

#[test]
fn handshake_decode_errors() {
    assert_eq!(
        Handshake::decode(&[0x03, 0x00]),
        Err(DecodeError::NotEnoughBytes { received: 2, expected: 4 })
    );
    assert_eq!(
        Handshake::decode(&[0x03, 0x00, 0x08, 0x00, 0x01]),
        Err(DecodeError::NotEnoughBytes { received: 1, expected: 4 })
    );
    assert_eq!(
        Handshake::decode(&[0x12, 0x00, 0x0C, 0x00, 0x01, 0x00, 0x00, 0x00]),
        Err(DecodeError::NotEnoughBytes { received: 4, expected: 8 })
    );
    assert_eq!(
        Handshake::decode(&[0x02, 0x00, 0x08, 0x00, 0x01, 0x00, 0x00, 0x00]),
        Err(DecodeError::InvalidField { field: RailField::OrderType })
    );
}

#[test]
fn client_status_bytes_and_roundtrip() {
    let flags = ClientStatusFlags::from_bits_retain(
        ClientStatusFlags::ALLOW_LOCAL_MOVE_SIZE | ClientStatusFlags::ZORDER_SYNC | 0x8000_0000,
    );
    let status = ClientStatus { flags };
    let bytes = status.encode();
    assert_eq!(bytes, vec![0x02, 0x00, 0x08, 0x00, 0x05, 0x00, 0x00, 0x80]);
    assert_eq!(status.size(), 8);
    assert_eq!(ClientStatus::decode(&bytes), Ok((status, 8)));
    assert_eq!(status.name(), "TS_RAIL_ORDER_CLIENTSTATUS");
    assert_eq!(
        ClientStatus::decode(&bytes[..6]),
        Err(DecodeError::NotEnoughBytes { received: 2, expected: 4 })
    );
}

#[test]
fn client_execute_bytes_exact() {
    let c = execute("ab", "", "x");
    let bytes = c.encode().unwrap();
    assert_eq!(
        bytes,
        vec![
            0x01, 0x00, 0x12, 0x00, // header: EXEC, 18 bytes
            0x01, 0x00, // flags
            0x04, 0x00, 0x00, 0x00, 0x02, 0x00, // lengths
            b'a', 0x00, b'b', 0x00, b'x', 0x00,
        ]
    );
    assert_eq!(c.inner_size(), 14);
    assert_eq!(c.size(), 18);
    assert_eq!(c.name(), "TS_RAIL_ORDER_EXEC");
}

#[test]
fn client_execute_roundtrip_non_ascii() {
    let c = execute("C:\\Programme\\Größe\u{1F600}.exe", "C:\\Temp", "--flag \u{10FFFF}");
    let bytes = c.encode().unwrap();
    let mut with_tail = bytes.clone();
    with_tail.extend_from_slice(&[0xAA, 0xBB]);
    assert!(RailPdu::decode_in_bounds(&with_tail));
    assert_eq!(ClientExecute::decode(&with_tail), Ok((c.clone(), bytes.len())));
    assert_eq!(RailPdu::decode(&with_tail), Ok((RailPdu::ClientExecute(c.clone()), bytes.len())));
    assert_eq!(RailPdu::ClientExecute(c).size(), bytes.len());
}

#[test]
fn client_execute_trailing_nul_is_trimmed() {
    let c = execute("app\0\0", "", "");
    let bytes = c.encode().unwrap();
    let (decoded, n) = ClientExecute::decode(&bytes).unwrap();
    assert_eq!(n, bytes.len());
    assert_eq!(decoded.exe_or_file, "app");
}

#[test]
fn client_execute_too_long_for_order_length() {
    let long = "a".repeat(40_000);
    assert_eq!(
        execute(&long, "", "").encode(),
        Err(EncodeError::InvalidField { field: RailField::OrderLength })
    );
    // 12 + 2 * 32761 = 65534 bytes of body and header still fit
    let fits = "b".repeat(32_761);
    assert_eq!(execute(&fits, "", "").encode().unwrap().len(), 65_534);
    let over = "b".repeat(32_762);
    assert!(execute(&over, "", "").encode().is_err());
}

#[test]
fn client_execute_invalid_utf16() {
    // ExeOrFile holds a lone high surrogate
    let bytes = vec![
        0x01, 0x00, 0x0E, 0x00, 0x00, 0x00, 0x02, 0x00, 0x00, 0x00, 0x00, 0x00, 0x00, 0xD8,
    ];
    assert_eq!(
        ClientExecute::decode(&bytes),
        Err(DecodeError::InvalidField { field: RailField::ExeOrFile })
    );
    // WorkingDir holds a lone low surrogate
    let bytes = vec![
        0x01, 0x00, 0x0E, 0x00, 0x00, 0x00, 0x00, 0x00, 0x02, 0x00, 0x00, 0x00, 0x00, 0xDC,
    ];
    assert_eq!(
        RailPdu::decode(&bytes),
        Err(DecodeError::InvalidField { field: RailField::WorkingDir })
    );
    // Arguments holds a high surrogate not followed by a low one
    let bytes = vec![
        0x01, 0x00, 0x10, 0x00, 0x00, 0x00, 0x00, 0x00, 0x00, 0x00, 0x04, 0x00, 0x00, 0xD8, 0x41,
        0x00,
    ];
    assert_eq!(
        RailPdu::decode(&bytes),
        Err(DecodeError::InvalidField { field: RailField::Arguments })
    );
}

#[test]
fn client_execute_short_fixed_part() {
    let bytes = vec![0x01, 0x00, 0x0C, 0x00, 0x00, 0x00, 0x00];
    assert_eq!(
        ClientExecute::decode(&bytes),
        Err(DecodeError::NotEnoughBytes { received: 3, expected: 8 })
    );
}

#[test]
fn client_execute_string_past_end_is_out_of_bounds() {
    let bytes = vec![0x01, 0x00, 0x0C, 0x00, 0x00, 0x00, 0x10, 0x00, 0x00, 0x00, 0x00, 0x00];
    assert!(!RailPdu::decode_in_bounds(&bytes));
    // an earlier invalid string stops decoding before the later field is reached
    let bytes = vec![
        0x01, 0x00, 0x0E, 0x00, 0x00, 0x00, 0x02, 0x00, 0x10, 0x00, 0x00, 0x00, 0x00, 0xD8,
    ];
    assert!(RailPdu::decode_in_bounds(&bytes));
    assert_eq!(
        RailPdu::decode(&bytes),
        Err(DecodeError::InvalidField { field: RailField::ExeOrFile })
    );
}

#[test]
fn server_execute_result_bytes_and_roundtrip() {
    let r = ServerExecuteResult {
        flags: ExecFlags::from_bits_retain(ExecFlags::FILE),
        result: ExecResult::NotInAllowList,
        raw_result: 0xDEAD_BEEF,
        exe_or_file: "x".to_owned(),
    };
    let bytes = r.encode().unwrap();
    assert_eq!(
        bytes,
        vec![
            0x04, 0x00, 0x12, 0x00, 0x08, 0x00, 0x03, 0x00, 0xEF, 0xBE, 0xAD, 0xDE, 0x00, 0x00,
            0x02, 0x00, b'x', 0x00,
        ]
    );
    assert_eq!(r.size(), 18);
    assert_eq!(r.inner_size(), 14);
    assert_eq!(ServerExecuteResult::decode(&bytes), Ok((r.clone(), 18)));
    assert_eq!(RailPdu::decode(&bytes), Ok((RailPdu::ServerExecuteResult(r.clone()), 18)));
    assert_eq!(r.name(), "TS_RAIL_ORDER_EXEC_RESULT");
}

#[test]
fn server_execute_result_known_code_in_other() {
    let r = ServerExecuteResult {
        flags: ExecFlags::empty(),
        result: ExecResult::Other(5),
        raw_result: 0,
        exe_or_file: String::new(),
    };
    let bytes = r.encode().unwrap();
    let (decoded, _) = ServerExecuteResult::decode(&bytes).unwrap();
    assert_eq!(decoded.result, ExecResult::FileNotFound);
}

#[test]
fn server_execute_result_errors() {
    let bytes = vec![0x04, 0x00, 0x10, 0x00, 0x00, 0x00, 0x00, 0x00, 0x00, 0x00];
    assert_eq!(
        ServerExecuteResult::decode(&bytes),
        Err(DecodeError::NotEnoughBytes { received: 6, expected: 12 })
    );
    let mut bytes = vec![0x04, 0x00, 0x12, 0x00, 0x00, 0x00, 0x00, 0x00, 0x00, 0x00, 0x00, 0x00];
    bytes.extend_from_slice(&[0x00, 0x00, 0x04, 0x00, 0x00, 0xDC]);
    assert!(!RailPdu::decode_in_bounds(&bytes));
    bytes.extend_from_slice(&[0x41, 0x00]);
    assert!(RailPdu::decode_in_bounds(&bytes));
    assert_eq!(
        RailPdu::decode(&bytes),
        Err(DecodeError::InvalidField { field: RailField::ExeOrFile })
    );
}

#[test]
fn unknown_order_type_is_skipped() {
    let bytes = vec![0x99, 0x00, 0x0A, 0x00, 1, 2, 3, 4, 5, 6, 7, 8, 9];
    assert_eq!(RailPdu::decode(&bytes), Ok((RailPdu::Unknown { order_type: 0x99 }, 10)));
    // orderLength below the header size skips nothing more
    let bytes = vec![0x13, 0x00, 0x02, 0x00, 1, 2];
    assert_eq!(RailPdu::decode(&bytes), Ok((RailPdu::Unknown { order_type: 0x13 }, 4)));
    // orderLength past the end skips what remains
    let bytes = vec![0x13, 0x00, 0xFF, 0x00, 1, 2];
    assert_eq!(RailPdu::decode(&bytes), Ok((RailPdu::Unknown { order_type: 0x13 }, 6)));
    let unknown = RailPdu::Unknown { order_type: 0x13 };
    assert_eq!(unknown.encode(), Err(EncodeError::InvalidField { field: RailField::OrderType }));
    assert_eq!(unknown.size(), 0);
    assert_eq!(unknown.name(), "TS_RAIL_ORDER_UNKNOWN");
}

#[test]
fn rail_pdu_decode_short_header() {
    assert_eq!(
        RailPdu::decode(&[0x03]),
        Err(DecodeError::NotEnoughBytes { received: 1, expected: 4 })
    );
    assert!(RailPdu::decode_in_bounds(&[0x03]));
}

#[test]
fn message_names() {
    assert_eq!(RailPdu::Handshake(Handshake::Basic { build_number: 1 }).message_name(), "TS_RAIL_ORDER_HANDSHAKE");
    assert_eq!(
        RailPdu::Handshake(Handshake::Ex { build_number: 1, rail_handshake_flags: 0 }).message_name(),
        "TS_RAIL_ORDER_HANDSHAKE_EX"
    );
    assert_eq!(
        RailPdu::ClientStatus(ClientStatus { flags: ClientStatusFlags::empty() }).message_name(),
        "TS_RAIL_ORDER_CLIENTSTATUS"
    );
    assert_eq!(RailPdu::ClientExecute(execute("a", "", "")).message_name(), "TS_RAIL_ORDER_EXEC");
    assert_eq!(RailPdu::ClientExecute(execute("a", "", "")).name(), "TS_RAIL_ORDER_EXEC");
}

#[test]
fn exec_result_codes() {
    let known = [
        (0u16, ExecResult::Success),
        (1, ExecResult::HookNotLoaded),
        (2, ExecResult::DecodeFailed),
        (3, ExecResult::NotInAllowList),
        (5, ExecResult::FileNotFound),
        (6, ExecResult::Fail),
        (7, ExecResult::SessionLocked),
    ];
    for (code, result) in known {
        assert_eq!(ExecResult::from_u16(code), result);
        assert_eq!(result.to_u16(), code);
    }
    assert_eq!(ExecResult::from_u16(4), ExecResult::Other(4));
    assert_eq!(ExecResult::from_u16(0xFFFF).to_u16(), 0xFFFF);
    assert!(ExecResult::Success.is_ok());
    assert!(!ExecResult::Fail.is_ok());
    assert!(!ExecResult::Other(0).is_ok());
}

#[test]
fn flags_operations() {
    let a = ExecFlags::from_bits_retain(ExecFlags::EXPAND_ARGUMENTS);
    let b = ExecFlags::from_bits_retain(ExecFlags::EXPAND_WORKING_DIRECTORY);
    let both = a.union(b);
    assert_eq!(both.bits(), 0x0005);
    assert!(both.contains(a));
    assert!(!a.contains(b));
    assert_eq!(ExecFlags::empty().bits(), 0);
    let s = ClientStatusFlags::empty().union(ClientStatusFlags::from_bits_retain(ClientStatusFlags::AUTORECONNECT));
    assert_eq!(s.bits(), 2);
    assert!(s.contains(ClientStatusFlags::empty()));
}

#[test]
fn utf16_string_fields() {
    let c = ClientExecute {
        flags: ExecFlags::empty(),
        exe_or_file: "A\u{1F600}".to_owned(),
        working_dir: String::new(),
        arguments: String::new(),
    };
    let bytes = c.encode().unwrap();
    assert_eq!(&bytes[12..], &[0x41, 0x00, 0x3D, 0xD8, 0x00, 0xDE]);
    assert_eq!(rail_string_byte_len("A\u{1F600}"), 6);
    assert_eq!(rail_string_byte_len("\u{E9}"), 2);
    assert_eq!(rail_string_byte_len(""), 0);
    // an odd last byte of a string field is left out
    let odd = vec![
        0x01, 0x00, 0x0F, 0x00, 0x00, 0x00, 0x03, 0x00, 0x00, 0x00, 0x00, 0x00, 0x41, 0x00, 0x42,
    ];
    let (decoded, n) = ClientExecute::decode(&odd).unwrap();
    assert_eq!(decoded.exe_or_file, "A");
    assert_eq!(n, 15);
}
