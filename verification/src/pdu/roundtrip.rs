//! What decoding gives back of what encoding wrote.
use vstd::prelude::*;

use super::utf16::{
    has_trailing_nul, le16, lemma_utf16_le_roundtrip, trim_trailing_nul, u16_at, utf16_le_bytes,
    utf16_le_decode,
};
use super::wire::{le32, lemma_prefix_bytes, lemma_u16_at_le16, lemma_u32_at_le32, u32_at};
use super::handshake_build_number;
use super::{
    client_execute_bytes, client_execute_ends, client_execute_inner_size, client_status_bytes,
    exec_result_code, exec_result_is_canonical, handshake_body_len, handshake_bytes, header_bytes,
    lemma_exec_result_roundtrip, parse_rail_pdu, rail_string_len, rail_pdu_bytes, rail_pdu_in_bounds,
    rail_pdu_size, server_execute_result_bytes, server_execute_result_inner_size,
    ClientExecuteSpec, ClientStatus, DecodeError, Handshake, RailPduSpec,
    ServerExecuteResultSpec, HEADER_SIZE, MAX_ORDER_LENGTH, ORDER_TYPE_CLIENTSTATUS,
    ORDER_TYPE_EXEC, ORDER_TYPE_EXEC_RESULT, ORDER_TYPE_HANDSHAKE, ORDER_TYPE_HANDSHAKE_EX,
};

verus! {

/// Whether every string field of `p` keeps its value through the wire: decoding
/// trims trailing NULs, and an `Other` result holding a known code decodes as that code.
pub open spec fn rail_pdu_is_canonical(p: RailPduSpec) -> bool {
    match p {
        RailPduSpec::ClientExecute(c) => !has_trailing_nul(c.exe_or_file) && !has_trailing_nul(
            c.working_dir,
        ) && !has_trailing_nul(c.arguments),
        RailPduSpec::ServerExecuteResult(r) => !has_trailing_nul(r.exe_or_file)
            && exec_result_is_canonical(r.result),
        _ => true,
    }
}

/// A piece of a concatenation read back by its position.
proof fn lemma_piece(pre: Seq<u8>, mid: Seq<u8>, post: Seq<u8>)
    ensures
        (pre + mid + post).subrange(pre.len() as int, (pre.len() + mid.len()) as int) == mid,
{
    assert((pre + mid + post).subrange(pre.len() as int, (pre.len() + mid.len()) as int) =~= mid);
}

proof fn lemma_no_trailing_nul_decodes(s: Seq<char>)
    requires
        !has_trailing_nul(s),
    ensures
        utf16_le_decode(utf16_le_bytes(s)) == Some(s),
        utf16_le_bytes(s).len() % 2 == 0,
{
    lemma_utf16_le_roundtrip(s);
}

proof fn lemma_header_read_back(b: Seq<u8>, order_type: u16, body: int)
    requires
        4 <= b.len(),
        0 <= body,
        HEADER_SIZE + body <= MAX_ORDER_LENGTH,
        b.subrange(0, 4) == header_bytes(order_type, body),
    ensures
        u16_at(b, 0) == order_type,
        u16_at(b, 2) == HEADER_SIZE + body,
{
    let h = header_bytes(order_type, body);
    lemma_prefix_bytes(b, h);
    assert(b[0] == h[0] && b[1] == h[1] && b[2] == h[2] && b[3] == h[3]);
    lemma_u16_at_le16(b, 0, order_type);
    lemma_u16_at_le16(b, 2, (HEADER_SIZE + body) as u16);
}

proof fn lemma_handshake_roundtrip(h: Handshake, rest: Seq<u8>)
    ensures
        parse_rail_pdu(handshake_bytes(h) + rest) == Ok::<_, DecodeError>(
            (RailPduSpec::Handshake(h), handshake_bytes(h).len() as int),
        ),
        handshake_bytes(h).len() == HEADER_SIZE + handshake_body_len(h),
{
    let b = handshake_bytes(h) + rest;
    match h {
        Handshake::Basic { build_number } => {
            assert(b.subrange(0, 4) =~= header_bytes(ORDER_TYPE_HANDSHAKE, 4));
            lemma_header_read_back(b, ORDER_TYPE_HANDSHAKE, 4);
            lemma_u32_at_le32(b, 4, build_number);
        },
        Handshake::Ex { build_number, rail_handshake_flags } => {
            assert(b.subrange(0, 4) =~= header_bytes(ORDER_TYPE_HANDSHAKE_EX, 8));
            lemma_header_read_back(b, ORDER_TYPE_HANDSHAKE_EX, 8);
            lemma_u32_at_le32(b, 4, build_number);
            lemma_u32_at_le32(b, 8, rail_handshake_flags);
        },
    }
}

proof fn lemma_client_status_roundtrip(c: ClientStatus, rest: Seq<u8>)
    ensures
        parse_rail_pdu(client_status_bytes(c) + rest) == Ok::<_, DecodeError>(
            (RailPduSpec::ClientStatus(c), client_status_bytes(c).len() as int),
        ),
        client_status_bytes(c).len() == HEADER_SIZE + 4,
{
    let b = client_status_bytes(c) + rest;
    assert(b.subrange(0, 4) =~= header_bytes(ORDER_TYPE_CLIENTSTATUS, 4));
    lemma_header_read_back(b, ORDER_TYPE_CLIENTSTATUS, 4);
    lemma_u32_at_le32(b, 4, c.flags.bits);
}

/// The fixed part of a client execute PDU: header, flags and the three lengths.
spec fn client_execute_fixed(c: ClientExecuteSpec) -> Seq<u8> {
    header_bytes(ORDER_TYPE_EXEC, client_execute_inner_size(c)) + le16(c.flags.bits) + le16(
        rail_string_len(c.exe_or_file) as u16,
    ) + le16(rail_string_len(c.working_dir) as u16) + le16(rail_string_len(c.arguments) as u16)
}

proof fn lemma_client_execute_fixed(c: ClientExecuteSpec, b: Seq<u8>)
    requires
        HEADER_SIZE + client_execute_inner_size(c) <= MAX_ORDER_LENGTH,
        12 <= b.len(),
        b.subrange(0, 12) == client_execute_fixed(c),
    ensures
        u16_at(b, 0) == ORDER_TYPE_EXEC,
        u16_at(b, 2) == HEADER_SIZE + client_execute_inner_size(c),
        u16_at(b, 4) == c.flags.bits,
        u16_at(b, 6) == rail_string_len(c.exe_or_file),
        u16_at(b, 8) == rail_string_len(c.working_dir),
        u16_at(b, 10) == rail_string_len(c.arguments),
{
    let f = client_execute_fixed(c);
    lemma_prefix_bytes(b, f);
    assert(b.subrange(0, 4) =~= header_bytes(ORDER_TYPE_EXEC, client_execute_inner_size(c)));
    lemma_header_read_back(b, ORDER_TYPE_EXEC, client_execute_inner_size(c));
    lemma_u16_at_le16(b, 4, c.flags.bits);
    lemma_u16_at_le16(b, 6, rail_string_len(c.exe_or_file) as u16);
    lemma_u16_at_le16(b, 8, rail_string_len(c.working_dir) as u16);
    lemma_u16_at_le16(b, 10, rail_string_len(c.arguments) as u16);
}

proof fn lemma_client_execute_roundtrip(c: ClientExecuteSpec, rest: Seq<u8>)
    requires
        client_execute_bytes(c) is Ok,
        rail_pdu_is_canonical(RailPduSpec::ClientExecute(c)),
    ensures
        ({
            let b = client_execute_bytes(c)->Ok_0;
            &&& rail_pdu_in_bounds(b + rest)
            &&& parse_rail_pdu(b + rest) == Ok::<_, DecodeError>(
                (RailPduSpec::ClientExecute(c), b.len() as int),
            )
            &&& b.len() == HEADER_SIZE + client_execute_inner_size(c)
        }),
{
    let f = client_execute_fixed(c);
    let e1 = utf16_le_bytes(c.exe_or_file);
    let e2 = utf16_le_bytes(c.working_dir);
    let e3 = utf16_le_bytes(c.arguments);
    let l1 = e1.len() as int;
    let l2 = e2.len() as int;
    let l3 = e3.len() as int;
    let w = client_execute_bytes(c)->Ok_0;
    let b = w + rest;
    assert(w =~= f + e1 + e2 + e3);
    assert(f.len() == 12);
    lemma_no_trailing_nul_decodes(c.exe_or_file);
    lemma_no_trailing_nul_decodes(c.working_dir);
    lemma_no_trailing_nul_decodes(c.arguments);
    assert(b =~= Seq::<u8>::empty() + f + (e1 + e2 + e3 + rest));
    lemma_piece(Seq::<u8>::empty(), f, e1 + e2 + e3 + rest);
    lemma_client_execute_fixed(c, b);
    assert(b =~= f + e1 + (e2 + e3 + rest));
    lemma_piece(f, e1, e2 + e3 + rest);
    assert(b =~= (f + e1) + e2 + (e3 + rest));
    lemma_piece(f + e1, e2, e3 + rest);
    assert(b =~= (f + e1 + e2) + e3 + rest);
    lemma_piece(f + e1 + e2, e3, rest);
    assert(client_execute_ends(b) == (12 + l1, 12 + l1 + l2, 12 + l1 + l2 + l3));
}

/// The fixed part of an execute result PDU: header, flags, result codes, padding and length.
spec fn server_execute_result_fixed(r: ServerExecuteResultSpec) -> Seq<u8> {
    header_bytes(ORDER_TYPE_EXEC_RESULT, server_execute_result_inner_size(r)) + le16(r.flags.bits)
        + le16(exec_result_code(r.result)) + le32(r.raw_result) + le16(0) + le16(
        rail_string_len(r.exe_or_file) as u16,
    )
}

proof fn lemma_server_execute_result_fixed(r: ServerExecuteResultSpec, b: Seq<u8>)
    requires
        HEADER_SIZE + server_execute_result_inner_size(r) <= MAX_ORDER_LENGTH,
        16 <= b.len(),
        b.subrange(0, 16) == server_execute_result_fixed(r),
    ensures
        u16_at(b, 0) == ORDER_TYPE_EXEC_RESULT,
        u16_at(b, 2) == HEADER_SIZE + server_execute_result_inner_size(r),
        u16_at(b, 4) == r.flags.bits,
        u16_at(b, 6) == exec_result_code(r.result),
        u32_at(b, 8) == r.raw_result,
        u16_at(b, 12) == 0,
        u16_at(b, 14) == rail_string_len(r.exe_or_file),
{
    let f = server_execute_result_fixed(r);
    lemma_prefix_bytes(b, f);
    assert(b.subrange(0, 4) =~= header_bytes(
        ORDER_TYPE_EXEC_RESULT,
        server_execute_result_inner_size(r),
    ));
    lemma_header_read_back(b, ORDER_TYPE_EXEC_RESULT, server_execute_result_inner_size(r));
    lemma_u16_at_le16(b, 4, r.flags.bits);
    lemma_u16_at_le16(b, 6, exec_result_code(r.result));
    lemma_u32_at_le32(b, 8, r.raw_result);
    lemma_u16_at_le16(b, 12, 0);
    lemma_u16_at_le16(b, 14, rail_string_len(r.exe_or_file) as u16);
}

proof fn lemma_server_execute_result_roundtrip(r: ServerExecuteResultSpec, rest: Seq<u8>)
    requires
        server_execute_result_bytes(r) is Ok,
        rail_pdu_is_canonical(RailPduSpec::ServerExecuteResult(r)),
    ensures
        ({
            let b = server_execute_result_bytes(r)->Ok_0;
            &&& rail_pdu_in_bounds(b + rest)
            &&& parse_rail_pdu(b + rest) == Ok::<_, DecodeError>(
                (RailPduSpec::ServerExecuteResult(r), b.len() as int),
            )
            &&& b.len() == HEADER_SIZE + server_execute_result_inner_size(r)
        }),
{
    let f = server_execute_result_fixed(r);
    let e = utf16_le_bytes(r.exe_or_file);
    let l = e.len() as int;
    let w = server_execute_result_bytes(r)->Ok_0;
    let b = w + rest;
    assert(w =~= f + e);
    assert(f.len() == 16);
    lemma_no_trailing_nul_decodes(r.exe_or_file);
    assert(b =~= Seq::<u8>::empty() + f + (e + rest));
    lemma_piece(Seq::<u8>::empty(), f, e + rest);
    lemma_server_execute_result_fixed(r, b);
    lemma_exec_result_roundtrip(r.result);
    assert(b =~= f + e + rest);
    lemma_piece(f, e, rest);
}

/// Decoding what encoding wrote gives the PDU back, whatever bytes follow it,
/// and reads exactly the bytes written, which are `size` bytes.
pub proof fn lemma_rail_pdu_roundtrip(p: RailPduSpec, rest: Seq<u8>)
    requires
        rail_pdu_bytes(p) is Ok,
        rail_pdu_is_canonical(p),
    ensures
        ({
            let b = rail_pdu_bytes(p)->Ok_0;
            &&& rail_pdu_in_bounds(b + rest)
            &&& parse_rail_pdu(b + rest) == Ok::<_, DecodeError>((p, b.len() as int))
            &&& b.len() == rail_pdu_size(p)
        }),
{
    match p {
        RailPduSpec::Handshake(h) => lemma_handshake_roundtrip(h, rest),
        RailPduSpec::ClientStatus(c) => lemma_client_status_roundtrip(c, rest),
        RailPduSpec::ClientExecute(c) => lemma_client_execute_roundtrip(c, rest),
        RailPduSpec::ServerExecuteResult(r) => lemma_server_execute_result_roundtrip(r, rest),
        RailPduSpec::Unknown { .. } => {},
    }
}

/// Decoding reads the header and never more bytes than it is given.
pub proof fn lemma_decode_reads_within(b: Seq<u8>)
    requires
        rail_pdu_in_bounds(b),
    ensures
        parse_rail_pdu(b) matches Ok((_, n)) ==> HEADER_SIZE <= n <= b.len(),
{
}

/// The `orderLength` field of every encoded PDU holds the length of the whole
/// encoding, which is its size.
pub proof fn lemma_order_length_is_pdu_length(p: RailPduSpec)
    requires
        rail_pdu_bytes(p) is Ok,
    ensures
        ({
            let b = rail_pdu_bytes(p)->Ok_0;
            &&& 4 <= b.len()
            &&& u16_at(b, 2) == b.len()
            &&& b.len() == rail_pdu_size(p)
        }),
{
    let b = rail_pdu_bytes(p)->Ok_0;
    match p {
        RailPduSpec::Handshake(h) => {
            match h {
                Handshake::Basic { .. } => {
                    assert(b.subrange(0, 4) =~= header_bytes(ORDER_TYPE_HANDSHAKE, 4));
                    lemma_header_read_back(b, ORDER_TYPE_HANDSHAKE, 4);
                },
                Handshake::Ex { .. } => {
                    assert(b.subrange(0, 4) =~= header_bytes(ORDER_TYPE_HANDSHAKE_EX, 8));
                    lemma_header_read_back(b, ORDER_TYPE_HANDSHAKE_EX, 8);
                },
            }
        },
        RailPduSpec::ClientStatus(_) => {
            assert(b.subrange(0, 4) =~= header_bytes(ORDER_TYPE_CLIENTSTATUS, 4));
            lemma_header_read_back(b, ORDER_TYPE_CLIENTSTATUS, 4);
        },
        RailPduSpec::ClientExecute(c) => {
            let f = client_execute_fixed(c);
            let e1 = utf16_le_bytes(c.exe_or_file);
            let e2 = utf16_le_bytes(c.working_dir);
            let e3 = utf16_le_bytes(c.arguments);
            assert(b =~= f + e1 + e2 + e3);
            assert(f.len() == 12);
            assert(b =~= Seq::<u8>::empty() + f + (e1 + e2 + e3));
            lemma_piece(Seq::<u8>::empty(), f, e1 + e2 + e3);
            lemma_client_execute_fixed(c, b);
        },
        RailPduSpec::ServerExecuteResult(r) => {
            let f = server_execute_result_fixed(r);
            let e = utf16_le_bytes(r.exe_or_file);
            assert(b =~= f + e);
            assert(f.len() == 16);
            assert(b =~= Seq::<u8>::empty() + f + e);
            lemma_piece(Seq::<u8>::empty(), f, e);
            lemma_server_execute_result_fixed(r, b);
        },
        RailPduSpec::Unknown { .. } => {},
    }
}

/// A handshake's build number is the 32-bit value carried in bytes 4..8 of its
/// encoding, for the plain and the Ex kind alike.
pub proof fn lemma_build_number_is_carried(h: Handshake)
    ensures
        handshake_build_number(h) == u32_at(handshake_bytes(h), 4),
        h matches Handshake::Basic { build_number } ==> handshake_build_number(h) == build_number,
        h matches Handshake::Ex { build_number, .. } ==> handshake_build_number(h) == build_number,
{
    let b = handshake_bytes(h);
    match h {
        Handshake::Basic { build_number } => lemma_u32_at_le32(b, 4, build_number),
        Handshake::Ex { build_number, .. } => lemma_u32_at_le32(b, 4, build_number),
    }
}

/// An order type this crate does not know is skipped by its `orderLength`: the
/// whole announced PDU when it fits in the input, only the header when it announces
/// less than a header, and the rest of the input when it announces more.
pub proof fn lemma_unknown_order_skipped(b: Seq<u8>)
    requires
        4 <= b.len(),
        u16_at(b, 0) != ORDER_TYPE_EXEC,
        u16_at(b, 0) != ORDER_TYPE_CLIENTSTATUS,
        u16_at(b, 0) != ORDER_TYPE_HANDSHAKE,
        u16_at(b, 0) != ORDER_TYPE_EXEC_RESULT,
        u16_at(b, 0) != ORDER_TYPE_HANDSHAKE_EX,
    ensures
        parse_rail_pdu(b) matches Ok((RailPduSpec::Unknown { order_type }, n)) && order_type
            == u16_at(b, 0) && {
            &&& HEADER_SIZE <= u16_at(b, 2) <= b.len() ==> n == u16_at(b, 2)
            &&& u16_at(b, 2) < HEADER_SIZE ==> n == HEADER_SIZE
            &&& u16_at(b, 2) > b.len() ==> n == b.len()
        },
{
}

/// Where each field of an encoded client execute PDU stands: the order type, the
/// flags and the three UTF-16 byte lengths as little-endian 16-bit values at bytes
/// 0, 4, 6, 8 and 10, then the program, working directory and arguments in that order.
pub proof fn lemma_client_execute_layout(c: ClientExecuteSpec)
    requires
        client_execute_bytes(c) is Ok,
    ensures
        ({
            let b = client_execute_bytes(c)->Ok_0;
            let e1 = utf16_le_bytes(c.exe_or_file);
            let e2 = utf16_le_bytes(c.working_dir);
            let e3 = utf16_le_bytes(c.arguments);
            let p1 = 12 + e1.len() as int;
            let p2 = p1 + e2.len() as int;
            &&& b.len() == p2 + e3.len()
            &&& u16_at(b, 0) == ORDER_TYPE_EXEC
            &&& u16_at(b, 4) == c.flags.bits
            &&& u16_at(b, 6) == e1.len()
            &&& u16_at(b, 8) == e2.len()
            &&& u16_at(b, 10) == e3.len()
            &&& b.subrange(12, p1) == e1
            &&& b.subrange(p1, p2) == e2
            &&& b.subrange(p2, b.len() as int) == e3
        }),
{
    let b = client_execute_bytes(c)->Ok_0;
    let f = client_execute_fixed(c);
    let e1 = utf16_le_bytes(c.exe_or_file);
    let e2 = utf16_le_bytes(c.working_dir);
    let e3 = utf16_le_bytes(c.arguments);
    assert(b =~= f + e1 + e2 + e3);
    assert(f.len() == 12);
    assert(b =~= Seq::<u8>::empty() + f + (e1 + e2 + e3));
    lemma_piece(Seq::<u8>::empty(), f, e1 + e2 + e3);
    lemma_client_execute_fixed(c, b);
    assert(b =~= f + e1 + (e2 + e3));
    lemma_piece(f, e1, e2 + e3);
    assert(b =~= (f + e1) + e2 + e3);
    lemma_piece(f + e1, e2, e3);
    assert(b =~= (f + e1 + e2) + e3 + Seq::<u8>::empty());
    lemma_piece(f + e1 + e2, e3, Seq::<u8>::empty());
}

/// Where each field of an encoded execute result PDU stands: order type, flags,
/// result code, raw result, zero padding and the UTF-16 byte length at bytes 0, 4,
/// 6, 8, 12 and 14, then the program name.
pub proof fn lemma_server_execute_result_layout(r: ServerExecuteResultSpec)
    requires
        server_execute_result_bytes(r) is Ok,
    ensures
        ({
            let b = server_execute_result_bytes(r)->Ok_0;
            let e = utf16_le_bytes(r.exe_or_file);
            &&& b.len() == 16 + e.len()
            &&& u16_at(b, 0) == ORDER_TYPE_EXEC_RESULT
            &&& u16_at(b, 4) == r.flags.bits
            &&& u16_at(b, 6) == exec_result_code(r.result)
            &&& u32_at(b, 8) == r.raw_result
            &&& u16_at(b, 12) == 0
            &&& u16_at(b, 14) == e.len()
            &&& b.subrange(16, b.len() as int) == e
        }),
{
    let b = server_execute_result_bytes(r)->Ok_0;
    let f = server_execute_result_fixed(r);
    let e = utf16_le_bytes(r.exe_or_file);
    assert(b =~= f + e);
    assert(f.len() == 16);
    assert(b =~= Seq::<u8>::empty() + f + e);
    lemma_piece(Seq::<u8>::empty(), f, e);
    lemma_server_execute_result_fixed(r, b);
    assert(b =~= f + e + Seq::<u8>::empty());
    lemma_piece(f, e, Seq::<u8>::empty());
}

/// Where each field of an encoded handshake or client status PDU stands: the order
/// type at byte 0, then the 32-bit values at bytes 4 and (for the Ex kind) 8.
pub proof fn lemma_fixed_pdu_layout(h: Handshake, c: ClientStatus)
    ensures
        ({
            let b = handshake_bytes(h);
            match h {
                Handshake::Basic { build_number } => {
                    &&& u16_at(b, 0) == ORDER_TYPE_HANDSHAKE
                    &&& u32_at(b, 4) == build_number
                },
                Handshake::Ex { build_number, rail_handshake_flags } => {
                    &&& u16_at(b, 0) == ORDER_TYPE_HANDSHAKE_EX
                    &&& u32_at(b, 4) == build_number
                    &&& u32_at(b, 8) == rail_handshake_flags
                },
            }
        }),
        u16_at(client_status_bytes(c), 0) == ORDER_TYPE_CLIENTSTATUS,
        u32_at(client_status_bytes(c), 4) == c.flags.bits,
{
    lemma_handshake_roundtrip(h, Seq::empty());
    assert(handshake_bytes(h) + Seq::<u8>::empty() =~= handshake_bytes(h));
    let b = handshake_bytes(h);
    match h {
        Handshake::Basic { build_number } => {
            assert(b.subrange(0, 4) =~= header_bytes(ORDER_TYPE_HANDSHAKE, 4));
            lemma_header_read_back(b, ORDER_TYPE_HANDSHAKE, 4);
            lemma_u32_at_le32(b, 4, build_number);
        },
        Handshake::Ex { build_number, rail_handshake_flags } => {
            assert(b.subrange(0, 4) =~= header_bytes(ORDER_TYPE_HANDSHAKE_EX, 8));
            lemma_header_read_back(b, ORDER_TYPE_HANDSHAKE_EX, 8);
            lemma_u32_at_le32(b, 4, build_number);
            lemma_u32_at_le32(b, 8, rail_handshake_flags);
        },
    }
    let cb = client_status_bytes(c);
    assert(cb.subrange(0, 4) =~= header_bytes(ORDER_TYPE_CLIENTSTATUS, 4));
    lemma_header_read_back(cb, ORDER_TYPE_CLIENTSTATUS, 4);
    lemma_u32_at_le32(cb, 4, c.flags.bits);
}

} // verus!
