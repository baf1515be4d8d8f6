//! RemoteApp (RAIL) channel PDUs and their wire format.
use vstd::prelude::*;

pub mod utf16;
pub mod roundtrip;
pub mod wire;

use utf16::{decode_utf16_bytes, le16, u16_at, utf16_bytes, utf16_le_bytes, utf16_le_decode};
use wire::{le32, push_u16_le, push_u32_le, read_u16_le, read_u32_le, u32_at};

verus! {

pub const ORDER_TYPE_EXEC: u16 = 0x0001;

pub const ORDER_TYPE_CLIENTSTATUS: u16 = 0x0002;

pub const ORDER_TYPE_HANDSHAKE: u16 = 0x0003;

pub const ORDER_TYPE_EXEC_RESULT: u16 = 0x0004;

pub const ORDER_TYPE_HANDSHAKE_EX: u16 = 0x0012;

/// Size of the `TS_RAIL_PDU_HEADER` (orderType, orderLength).
pub const HEADER_SIZE: usize = 4;

/// The largest value the 16-bit `orderLength` header field can hold.
pub const MAX_ORDER_LENGTH: usize = 0xFFFF;

/// A field of a RAIL PDU, as named in error reports.
#[derive(Debug, Clone, Copy, PartialEq, Eq, Structural)]
pub enum RailField {
    OrderType,
    OrderLength,
    ExeOrFile,
    WorkingDir,
    Arguments,
}

/// Why bytes could not be decoded as a RAIL PDU.
#[derive(Debug, Clone, Copy, PartialEq, Eq, Structural)]
pub enum DecodeError {
    /// Fewer bytes remained than the structure being read needs.
    NotEnoughBytes { received: usize, expected: usize },
    /// A field holds a value that cannot be decoded.
    InvalidField { field: RailField },
}

/// Why a RAIL PDU could not be encoded.
#[derive(Debug, Clone, Copy, PartialEq, Eq, Structural)]
pub enum EncodeError {
    /// A field cannot be represented on the wire.
    InvalidField { field: RailField },
}

/// Flags of the `ClientStatus` PDU (`TS_RAIL_CLIENTSTATUS_*`); every bit is kept as received.
#[derive(Debug, Clone, Copy, PartialEq, Eq, Structural)]
pub struct ClientStatusFlags {
    pub bits: u32,
}

impl ClientStatusFlags {
    /// TS_RAIL_CLIENTSTATUS_ALLOWLOCALMOVESIZE
    pub const ALLOW_LOCAL_MOVE_SIZE: u32 = 0x0000_0001;
    /// TS_RAIL_CLIENTSTATUS_AUTORECONNECT
    pub const AUTORECONNECT: u32 = 0x0000_0002;
    /// TS_RAIL_CLIENTSTATUS_ZORDER_SYNC
    pub const ZORDER_SYNC: u32 = 0x0000_0004;
    /// TS_RAIL_CLIENTSTATUS_WINDOW_RESIZE_MARGIN_SUPPORTED
    pub const WINDOW_RESIZE_MARGIN_SUPPORTED: u32 = 0x0000_0010;
    /// TS_RAIL_CLIENTSTATUS_APPBAR_REMOTING_SUPPORTED
    pub const APPBAR_REMOTING_SUPPORTED: u32 = 0x0000_0020;
    /// TS_RAIL_CLIENTSTATUS_POWER_DISPLAY_REQUEST_SUPPORTED
    pub const POWER_DISPLAY_REQUEST_SUPPORTED: u32 = 0x0000_0040;
    /// TS_RAIL_CLIENTSTATUS_GET_APPID_RESPONSE_EX_SUPPORTED
    pub const GET_APPID_RESPONSE_EX_SUPPORTED: u32 = 0x0000_0080;
    /// TS_RAIL_CLIENTSTATUS_BIDIRECTIONAL_CLOAK_SUPPORTED
    pub const BIDIRECTIONAL_CLOAK_SUPPORTED: u32 = 0x0000_0100;

    /// The flags with no bit set.
    pub fn empty() -> (r: Self)
        ensures
            r.bits == 0,
    {
        ClientStatusFlags { bits: 0 }
    }

    /// The flags holding exactly `bits`, known or not.
    pub fn from_bits_retain(bits: u32) -> (r: Self)
        ensures
            r.bits == bits,
    {
        ClientStatusFlags { bits }
    }

    pub fn bits(&self) -> (r: u32)
        ensures
            r == self.bits,
    {
        self.bits
    }

    /// Whether every bit of `other` is set here.
    pub fn contains(&self, other: Self) -> (r: bool)
        ensures
            r == (self.bits & other.bits == other.bits),
    {
        self.bits & other.bits == other.bits
    }

    /// The bits set in either.
    pub fn union(self, other: Self) -> (r: Self)
        ensures
            r.bits == self.bits | other.bits,
    {
        ClientStatusFlags { bits: self.bits | other.bits }
    }
}

/// Flags of the `ClientExecute` PDU (`TS_RAIL_EXEC_FLAG_*`); every bit is kept as received.
#[derive(Debug, Clone, Copy, PartialEq, Eq, Structural)]
pub struct ExecFlags {
    pub bits: u16,
}

impl ExecFlags {
    /// TS_RAIL_EXEC_FLAG_EXPAND_ARGUMENTS
    pub const EXPAND_ARGUMENTS: u16 = 0x0001;
    /// TS_RAIL_EXEC_FLAG_TRANSLATE_FILES
    pub const TRANSLATE_FILES: u16 = 0x0002;
    /// TS_RAIL_EXEC_FLAG_EXPAND_WORKINGDIRECTORY
    pub const EXPAND_WORKING_DIRECTORY: u16 = 0x0004;
    /// TS_RAIL_EXEC_FLAG_FILE
    pub const FILE: u16 = 0x0008;
    /// TS_RAIL_EXEC_FLAG_APP_USER_MODEL_ID
    pub const APP_USER_MODEL_ID: u16 = 0x0010;

    /// The flags with no bit set.
    pub fn empty() -> (r: Self)
        ensures
            r.bits == 0,
    {
        ExecFlags { bits: 0 }
    }

    /// The flags holding exactly `bits`, known or not.
    pub fn from_bits_retain(bits: u16) -> (r: Self)
        ensures
            r.bits == bits,
    {
        ExecFlags { bits }
    }

    pub fn bits(&self) -> (r: u16)
        ensures
            r == self.bits,
    {
        self.bits
    }

    /// Whether every bit of `other` is set here.
    pub fn contains(&self, other: Self) -> (r: bool)
        ensures
            r == (self.bits & other.bits == other.bits),
    {
        self.bits & other.bits == other.bits
    }

    /// The bits set in either.
    pub fn union(self, other: Self) -> (r: Self)
        ensures
            r.bits == self.bits | other.bits,
    {
        ExecFlags { bits: self.bits | other.bits }
    }
}

/// Result code of the `ServerExecuteResult` PDU (`TS_RAIL_EXEC_*`).
#[derive(Debug, Clone, Copy, PartialEq, Eq, Structural)]
pub enum ExecResult {
    /// RAIL_EXEC_S_OK
    Success,
    /// RAIL_EXEC_E_HOOK_NOT_LOADED
    HookNotLoaded,
    /// RAIL_EXEC_E_DECODE_FAILED
    DecodeFailed,
    /// RAIL_EXEC_E_NOT_IN_ALLOWLIST
    NotInAllowList,
    /// RAIL_EXEC_E_FILE_NOT_FOUND
    FileNotFound,
    /// RAIL_EXEC_E_FAIL
    Fail,
    /// RAIL_EXEC_E_SESSION_LOCKED
    SessionLocked,
    /// Unknown or reserved result code, kept as received.
    Other(u16),
}

/// The result named by a wire code.
pub open spec fn exec_result_of(value: u16) -> ExecResult {
    if value == 0 {
        ExecResult::Success
    } else if value == 1 {
        ExecResult::HookNotLoaded
    } else if value == 2 {
        ExecResult::DecodeFailed
    } else if value == 3 {
        ExecResult::NotInAllowList
    } else if value == 5 {
        ExecResult::FileNotFound
    } else if value == 6 {
        ExecResult::Fail
    } else if value == 7 {
        ExecResult::SessionLocked
    } else {
        ExecResult::Other(value)
    }
}

/// The wire code of a result.
pub open spec fn exec_result_code(r: ExecResult) -> u16 {
    match r {
        ExecResult::Success => 0,
        ExecResult::HookNotLoaded => 1,
        ExecResult::DecodeFailed => 2,
        ExecResult::NotInAllowList => 3,
        ExecResult::FileNotFound => 5,
        ExecResult::Fail => 6,
        ExecResult::SessionLocked => 7,
        ExecResult::Other(v) => v,
    }
}

/// Whether the code of `r` names `r` again: false only of an `Other` holding a known code.
pub open spec fn exec_result_is_canonical(r: ExecResult) -> bool {
    match r {
        ExecResult::Other(v) => !(v <= 3 || 5 <= v <= 7),
        _ => true,
    }
}

impl ExecResult {
    pub fn from_u16(value: u16) -> (r: Self)
        ensures
            r == exec_result_of(value),
    {
        match value {
            0 => ExecResult::Success,
            1 => ExecResult::HookNotLoaded,
            2 => ExecResult::DecodeFailed,
            3 => ExecResult::NotInAllowList,
            5 => ExecResult::FileNotFound,
            6 => ExecResult::Fail,
            7 => ExecResult::SessionLocked,
            other => ExecResult::Other(other),
        }
    }

    pub fn to_u16(self) -> (v: u16)
        ensures
            v == exec_result_code(self),
    {
        match self {
            ExecResult::Success => 0,
            ExecResult::HookNotLoaded => 1,
            ExecResult::DecodeFailed => 2,
            ExecResult::NotInAllowList => 3,
            ExecResult::FileNotFound => 5,
            ExecResult::Fail => 6,
            ExecResult::SessionLocked => 7,
            ExecResult::Other(value) => value,
        }
    }

    /// Returns `true` if the remote program execution request succeeded.
    pub fn is_ok(self) -> (r: bool)
        ensures
            r == (self is Success),
    {
        match self {
            ExecResult::Success => true,
            _ => false,
        }
    }
}

/// Every wire code survives a trip through `ExecResult`.
pub proof fn lemma_exec_result_code_roundtrip(value: u16)
    ensures
        exec_result_code(exec_result_of(value)) == value,
{
}

/// A result survives a trip through its wire code exactly when it is canonical.
pub proof fn lemma_exec_result_roundtrip(r: ExecResult)
    ensures
        exec_result_of(exec_result_code(r)) == r <==> exec_result_is_canonical(r),
{
}

/// The bytes of a `TS_RAIL_PDU_HEADER` announcing a body of `body_len` bytes.
pub open spec fn header_bytes(order_type: u16, body_len: int) -> Seq<u8> {
    le16(order_type) + le16((HEADER_SIZE + body_len) as u16)
}

/// Reading a header needs four bytes.
pub open spec fn header_error(b: Seq<u8>) -> DecodeError {
    DecodeError::NotEnoughBytes { received: b.len() as usize, expected: HEADER_SIZE }
}

/// The error for a body of `expected` bytes of which fewer than that follow the header.
pub open spec fn body_error(b: Seq<u8>, expected: usize) -> DecodeError {
    DecodeError::NotEnoughBytes { received: (b.len() - HEADER_SIZE) as usize, expected }
}

/// Fails with `NotEnoughBytes` where fewer than `expected` bytes remain.
fn ensure_size(received: usize, expected: usize) -> (r: Result<(), DecodeError>)
    ensures
        r is Ok <==> received >= expected,
        r matches Err(e) ==> e == (DecodeError::NotEnoughBytes { received, expected }),
{
    if received >= expected {
        Ok(())
    } else {
        Err(DecodeError::NotEnoughBytes { received, expected })
    }
}

/// `TS_RAIL_PDU_HEADER`
struct RailPduHeader {
    order_type: u16,
    order_length: u16,
}

impl RailPduHeader {
    /// The header of a PDU whose body is `body_size` bytes; fails where the whole PDU
    /// does not fit the 16-bit `orderLength`.
    fn new(order_type: u16, body_size: usize) -> (r: Result<Self, EncodeError>)
        ensures
            r is Ok <==> HEADER_SIZE + body_size <= MAX_ORDER_LENGTH,
            r matches Ok(h) ==> h.order_type == order_type && h.order_length == HEADER_SIZE
                + body_size,
            r matches Err(e) ==> e == (EncodeError::InvalidField { field: RailField::OrderLength }),
    {
        if body_size > MAX_ORDER_LENGTH - HEADER_SIZE {
            Err(EncodeError::InvalidField { field: RailField::OrderLength })
        } else {
            Ok(RailPduHeader { order_type, order_length: (HEADER_SIZE + body_size) as u16 })
        }
    }

    fn encode(&self, dst: &mut Vec<u8>)
        ensures
            final(dst)@ == old(dst)@ + le16(self.order_type) + le16(self.order_length),
    {
        push_u16_le(dst, self.order_type);
        push_u16_le(dst, self.order_length);
        assert(final(dst)@ =~= old(dst)@ + le16(self.order_type) + le16(self.order_length));
    }

    fn decode(src: &[u8]) -> (r: Result<Self, DecodeError>)
        ensures
            r is Ok <==> src@.len() >= HEADER_SIZE,
            r matches Ok(h) ==> h.order_type == u16_at(src@, 0) && h.order_length == u16_at(
                src@,
                2,
            ),
            r matches Err(e) ==> e == header_error(src@),
    {
        ensure_size(src.len(), HEADER_SIZE)?;
        let order_type = read_u16_le(src, 0);
        let order_length = read_u16_le(src, 2);
        Ok(RailPduHeader { order_type, order_length })
    }
}

/// Handshake PDU (`TS_RAIL_ORDER_HANDSHAKE` / `TS_RAIL_ORDER_HANDSHAKE_EX`).
///
/// Sent by the server to start the RAIL handshake, and echoed back by the client
/// as a plain [`Handshake::Basic`], never as [`Handshake::Ex`].
#[derive(Debug, Clone, Copy, PartialEq, Eq, Structural)]
pub enum Handshake {
    /// `TS_RAIL_ORDER_HANDSHAKE`
    Basic { build_number: u32 },
    /// `TS_RAIL_ORDER_HANDSHAKE_EX`
    Ex { build_number: u32, rail_handshake_flags: u32 },
}

pub open spec fn handshake_build_number(h: Handshake) -> u32 {
    match h {
        Handshake::Basic { build_number } => build_number,
        Handshake::Ex { build_number, .. } => build_number,
    }
}

/// The body length of a handshake: `buildNumber`, and `railHandshakeFlags` for the Ex kind.
pub open spec fn handshake_body_len(h: Handshake) -> int {
    match h {
        Handshake::Basic { .. } => 4,
        Handshake::Ex { .. } => 8,
    }
}

/// The wire bytes of a handshake, header included.
pub open spec fn handshake_bytes(h: Handshake) -> Seq<u8> {
    match h {
        Handshake::Basic { build_number } => header_bytes(ORDER_TYPE_HANDSHAKE, 4) + le32(
            build_number,
        ),
        Handshake::Ex { build_number, rail_handshake_flags } => header_bytes(
            ORDER_TYPE_HANDSHAKE_EX,
            8,
        ) + le32(build_number) + le32(rail_handshake_flags),
    }
}

/// What decoding a handshake from `b` gives: the PDU and the bytes read, or the error.
pub open spec fn parse_handshake(b: Seq<u8>) -> Result<(Handshake, int), DecodeError> {
    if b.len() < 4 {
        Err(header_error(b))
    } else if u16_at(b, 0) == ORDER_TYPE_HANDSHAKE {
        if b.len() - 4 < 4 {
            Err(body_error(b, 4))
        } else {
            Ok((Handshake::Basic { build_number: u32_at(b, 4) }, 8))
        }
    } else if u16_at(b, 0) == ORDER_TYPE_HANDSHAKE_EX {
        if b.len() - 4 < 8 {
            Err(body_error(b, 8))
        } else {
            Ok(
                (
                    Handshake::Ex { build_number: u32_at(b, 4), rail_handshake_flags: u32_at(b, 8) },
                    12,
                ),
            )
        }
    } else {
        Err(DecodeError::InvalidField { field: RailField::OrderType })
    }
}

impl Handshake {
    pub fn build_number(&self) -> (r: u32)
        ensures
            r == handshake_build_number(*self),
            *self matches Handshake::Basic { build_number } ==> r == build_number,
            *self matches Handshake::Ex { build_number, .. } ==> r == build_number,
    {
        match self {
            Handshake::Basic { build_number } => *build_number,
            Handshake::Ex { build_number, .. } => *build_number,
        }
    }

    /// Builds the plain (non-Ex) reply the client must send back to the server.
    pub fn reply(build_number: u32) -> (r: Self)
        ensures
            r == (Handshake::Basic { build_number }),
    {
        Handshake::Basic { build_number }
    }

    pub fn name(&self) -> (r: &'static str)
        ensures
            r@ == "TS_RAIL_ORDER_HANDSHAKE"@,
    {
        "TS_RAIL_ORDER_HANDSHAKE"
    }

    /// The encoded size, header included.
    pub fn size(&self) -> (r: usize)
        ensures
            r == HEADER_SIZE + handshake_body_len(*self),
    {
        match self {
            Handshake::Basic { .. } => HEADER_SIZE + 4,
            Handshake::Ex { .. } => HEADER_SIZE + 8,
        }
    }

    pub fn encode(&self) -> (r: Vec<u8>)
        ensures
            r@ == handshake_bytes(*self),
            u16_at(r@, 2) == r@.len(),
    {
        let mut out: Vec<u8> = Vec::new();
        match self {
            Handshake::Basic { build_number } => {
                RailPduHeader { order_type: ORDER_TYPE_HANDSHAKE, order_length: 8 }.encode(&mut out);
                push_u32_le(&mut out, *build_number);
            },
            Handshake::Ex { build_number, rail_handshake_flags } => {
                RailPduHeader { order_type: ORDER_TYPE_HANDSHAKE_EX, order_length: 12 }.encode(
                    &mut out,
                );
                push_u32_le(&mut out, *build_number);
                push_u32_le(&mut out, *rail_handshake_flags);
            },
        }
        assert(out@ =~= handshake_bytes(*self));
        proof {
            roundtrip::lemma_order_length_is_pdu_length(RailPduSpec::Handshake(*self));
        }
        out
    }

    /// Decodes a handshake from the front of `src`, returning it with the number of bytes read.
    pub fn decode(src: &[u8]) -> (r: Result<(Handshake, usize), DecodeError>)
        ensures
            r matches Ok((h, n)) ==> parse_handshake(src@) == Ok::<_, DecodeError>((h, n as int)),
            r matches Err(e) ==> parse_handshake(src@) == Err::<(Handshake, int), _>(e),
    {
        let header = RailPduHeader::decode(src)?;
        if header.order_type == ORDER_TYPE_HANDSHAKE {
            ensure_size(src.len() - HEADER_SIZE, 4)?;
            let build_number = read_u32_le(src, 4);
            Ok((Handshake::Basic { build_number }, 8))
        } else if header.order_type == ORDER_TYPE_HANDSHAKE_EX {
            ensure_size(src.len() - HEADER_SIZE, 8)?;
            let build_number = read_u32_le(src, 4);
            let rail_handshake_flags = read_u32_le(src, 8);
            Ok((Handshake::Ex { build_number, rail_handshake_flags }, 12))
        } else {
            Err(DecodeError::InvalidField { field: RailField::OrderType })
        }
    }
}

/// `TS_RAIL_ORDER_CLIENTSTATUS`
#[derive(Debug, Clone, Copy, PartialEq, Eq, Structural)]
pub struct ClientStatus {
    pub flags: ClientStatusFlags,
}

pub open spec fn client_status_bytes(c: ClientStatus) -> Seq<u8> {
    header_bytes(ORDER_TYPE_CLIENTSTATUS, 4) + le32(c.flags.bits)
}

/// Decoding a client status does not look at the header's fields.
pub open spec fn parse_client_status(b: Seq<u8>) -> Result<(ClientStatus, int), DecodeError> {
    if b.len() < 4 {
        Err(header_error(b))
    } else if b.len() - 4 < 4 {
        Err(body_error(b, 4))
    } else {
        Ok((ClientStatus { flags: ClientStatusFlags { bits: u32_at(b, 4) } }, 8))
    }
}

impl ClientStatus {
    pub fn name(&self) -> (r: &'static str)
        ensures
            r@ == "TS_RAIL_ORDER_CLIENTSTATUS"@,
    {
        "TS_RAIL_ORDER_CLIENTSTATUS"
    }

    pub fn size(&self) -> (r: usize)
        ensures
            r == HEADER_SIZE + 4,
    {
        HEADER_SIZE + 4
    }

    pub fn encode(&self) -> (r: Vec<u8>)
        ensures
            r@ == client_status_bytes(*self),
            u16_at(r@, 2) == r@.len(),
    {
        let mut out: Vec<u8> = Vec::new();
        RailPduHeader { order_type: ORDER_TYPE_CLIENTSTATUS, order_length: 8 }.encode(&mut out);
        push_u32_le(&mut out, self.flags.bits());
        assert(out@ =~= client_status_bytes(*self));
        proof {
            roundtrip::lemma_order_length_is_pdu_length(RailPduSpec::ClientStatus(*self));
        }
        out
    }

    pub fn decode(src: &[u8]) -> (r: Result<(ClientStatus, usize), DecodeError>)
        ensures
            r matches Ok((c, n)) ==> parse_client_status(src@) == Ok::<_, DecodeError>((c, n as int)),
            r matches Err(e) ==> parse_client_status(src@) == Err::<(ClientStatus, int), _>(e),
    {
        let _header = RailPduHeader::decode(src)?;
        ensure_size(src.len() - HEADER_SIZE, 4)?;
        let flags = ClientStatusFlags::from_bits_retain(read_u32_le(src, 4));
        Ok((ClientStatus { flags }, 8))
    }
}

/// The byte length of a string field on the wire: its UTF-16LE encoding, no terminator.
pub open spec fn rail_string_len(s: Seq<char>) -> int {
    utf16_le_bytes(s).len() as int
}

/// The byte length of a RAIL string field: two bytes per UTF-16 code unit.
pub fn rail_string_byte_len(value: &str) -> (r: usize)
    ensures
        r == rail_string_len(value@),
{
    utf16_bytes(value).len()
}

/// Reads the string field stored in `src[start..start + len]`.
fn read_rail_string(src: &[u8], start: usize, len: usize, field: RailField) -> (r: Result<
    String,
    DecodeError,
>)
    requires
        start + len <= src@.len(),
    ensures
        r is Ok <==> utf16_le_decode(src@.subrange(start as int, start + len)) is Some,
        r matches Ok(v) ==> utf16_le_decode(src@.subrange(start as int, start + len)) == Some(v@),
        r matches Err(e) ==> e == (DecodeError::InvalidField { field }),
{
    let n = src.len();
    assert(start + len <= n);
    match decode_utf16_bytes(&src[start..start + len]) {
        Some(v) => Ok(v),
        None => Err(DecodeError::InvalidField { field }),
    }
}

/// The contents of a [`ClientExecute`], its strings as character sequences.
pub struct ClientExecuteSpec {
    pub flags: ExecFlags,
    pub exe_or_file: Seq<char>,
    pub working_dir: Seq<char>,
    pub arguments: Seq<char>,
}

/// `TS_RAIL_ORDER_EXEC`
///
/// Requests that the server start (or activate, if already running) a remote program.
#[derive(Debug, Clone, PartialEq, Eq)]
pub struct ClientExecute {
    pub flags: ExecFlags,
    pub exe_or_file: String,
    pub working_dir: String,
    pub arguments: String,
}

impl View for ClientExecute {
    type V = ClientExecuteSpec;

    open spec fn view(&self) -> ClientExecuteSpec {
        ClientExecuteSpec {
            flags: self.flags,
            exe_or_file: self.exe_or_file@,
            working_dir: self.working_dir@,
            arguments: self.arguments@,
        }
    }
}

/// The body length: four 16-bit fields and the three strings.
pub open spec fn client_execute_inner_size(c: ClientExecuteSpec) -> int {
    8 + rail_string_len(c.exe_or_file) + rail_string_len(c.working_dir) + rail_string_len(
        c.arguments,
    )
}

/// The wire bytes of a client execute PDU, or the error where its length does
/// not fit the 16-bit `orderLength`.
pub open spec fn client_execute_bytes(c: ClientExecuteSpec) -> Result<Seq<u8>, EncodeError> {
    let body = client_execute_inner_size(c);
    if HEADER_SIZE + body > MAX_ORDER_LENGTH {
        Err(EncodeError::InvalidField { field: RailField::OrderLength })
    } else {
        Ok(
            header_bytes(ORDER_TYPE_EXEC, body) + le16(c.flags.bits) + le16(
                rail_string_len(c.exe_or_file) as u16,
            ) + le16(rail_string_len(c.working_dir) as u16) + le16(
                rail_string_len(c.arguments) as u16,
            ) + utf16_le_bytes(c.exe_or_file) + utf16_le_bytes(c.working_dir) + utf16_le_bytes(
                c.arguments,
            ),
        )
    }
}

/// Where the three string fields of a client execute PDU in `b` end.
pub open spec fn client_execute_ends(b: Seq<u8>) -> (int, int, int) {
    let p1 = 12 + u16_at(b, 6);
    let p2 = p1 + u16_at(b, 8);
    (p1, p2, p2 + u16_at(b, 10))
}

/// Whether decoding a client execute PDU from `b` stays within `b`: each string
/// field that is read lies within the bytes given.
pub open spec fn client_execute_in_bounds(b: Seq<u8>) -> bool {
    b.len() >= 12 ==> {
        let (p1, p2, p3) = client_execute_ends(b);
        &&& p1 <= b.len()
        &&& utf16_le_decode(b.subrange(12, p1)) is Some ==> p2 <= b.len()
        &&& utf16_le_decode(b.subrange(12, p1)) is Some && utf16_le_decode(b.subrange(p1, p2)) is Some
            ==> p3 <= b.len()
    }
}

/// What decoding a client execute PDU from `b` gives; the header's fields are not looked at.
pub open spec fn parse_client_execute(b: Seq<u8>) -> Result<(ClientExecuteSpec, int), DecodeError> {
    if b.len() < 4 {
        Err(header_error(b))
    } else if b.len() - 4 < 8 {
        Err(body_error(b, 8))
    } else {
        let (p1, p2, p3) = client_execute_ends(b);
        match utf16_le_decode(b.subrange(12, p1)) {
            None => Err(DecodeError::InvalidField { field: RailField::ExeOrFile }),
            Some(exe_or_file) => match utf16_le_decode(b.subrange(p1, p2)) {
                None => Err(DecodeError::InvalidField { field: RailField::WorkingDir }),
                Some(working_dir) => match utf16_le_decode(b.subrange(p2, p3)) {
                    None => Err(DecodeError::InvalidField { field: RailField::Arguments }),
                    Some(arguments) => Ok(
                        (
                            ClientExecuteSpec {
                                flags: ExecFlags { bits: u16_at(b, 4) },
                                exe_or_file,
                                working_dir,
                                arguments,
                            },
                            p3,
                        ),
                    ),
                },
            },
        }
    }
}

impl ClientExecute {
    pub fn name(&self) -> (r: &'static str)
        ensures
            r@ == "TS_RAIL_ORDER_EXEC"@,
    {
        "TS_RAIL_ORDER_EXEC"
    }

    /// The body length, without the header.
    pub fn inner_size(&self) -> (r: usize)
        requires
            client_execute_inner_size(self@) <= usize::MAX,
        ensures
            r == client_execute_inner_size(self@),
    {
        8 + rail_string_byte_len(self.exe_or_file.as_str()) + rail_string_byte_len(
            self.working_dir.as_str(),
        ) + rail_string_byte_len(self.arguments.as_str())
    }

    /// The encoded size, header included.
    pub fn size(&self) -> (r: usize)
        requires
            HEADER_SIZE + client_execute_inner_size(self@) <= usize::MAX,
        ensures
            r == HEADER_SIZE + client_execute_inner_size(self@),
    {
        HEADER_SIZE + self.inner_size()
    }

    pub fn encode(&self) -> (r: Result<Vec<u8>, EncodeError>)
        ensures
            r matches Ok(b) ==> client_execute_bytes(self@) == Ok::<_, EncodeError>(b@),
            r matches Err(e) ==> client_execute_bytes(self@) == Err::<Seq<u8>, _>(e),
            r matches Ok(b) ==> u16_at(b@, 2) == b@.len(),
    {
        let mut exe_or_file = utf16_bytes(self.exe_or_file.as_str());
        let mut working_dir = utf16_bytes(self.working_dir.as_str());
        let mut arguments = utf16_bytes(self.arguments.as_str());
        let l1 = exe_or_file.len();
        let l2 = working_dir.len();
        let l3 = arguments.len();
        if l1 > MAX_ORDER_LENGTH || l2 > MAX_ORDER_LENGTH || l3 > MAX_ORDER_LENGTH {
            return Err(EncodeError::InvalidField { field: RailField::OrderLength });
        }
        let header = RailPduHeader::new(ORDER_TYPE_EXEC, 8 + l1 + l2 + l3)?;
        let mut out: Vec<u8> = Vec::new();
        header.encode(&mut out);
        push_u16_le(&mut out, self.flags.bits());
        push_u16_le(&mut out, l1 as u16);
        push_u16_le(&mut out, l2 as u16);
        push_u16_le(&mut out, l3 as u16);
        out.append(&mut exe_or_file);
        out.append(&mut working_dir);
        out.append(&mut arguments);
        assert(out@ =~= client_execute_bytes(self@)->Ok_0);
        proof {
            roundtrip::lemma_order_length_is_pdu_length(RailPduSpec::ClientExecute(self@));
        }
        Ok(out)
    }

    /// Decodes a client execute PDU from the front of `src`, with the number of bytes read.
    pub fn decode(src: &[u8]) -> (r: Result<(ClientExecute, usize), DecodeError>)
        requires
            client_execute_in_bounds(src@),
        ensures
            r matches Ok((c, n)) ==> parse_client_execute(src@) == Ok::<_, DecodeError>(
                (c@, n as int),
            ),
            r matches Err(e) ==> parse_client_execute(src@) == Err::<(ClientExecuteSpec, int), _>(
                e,
            ),
    {
        let _header = RailPduHeader::decode(src)?;
        ensure_size(src.len() - HEADER_SIZE, 8)?;
        let flags = ExecFlags::from_bits_retain(read_u16_le(src, 4));
        let l1 = read_u16_le(src, 6) as usize;
        let l2 = read_u16_le(src, 8) as usize;
        let l3 = read_u16_le(src, 10) as usize;
        let exe_or_file = read_rail_string(src, 12, l1, RailField::ExeOrFile)?;
        let working_dir = read_rail_string(src, 12 + l1, l2, RailField::WorkingDir)?;
        let arguments = read_rail_string(src, 12 + l1 + l2, l3, RailField::Arguments)?;
        let c = ClientExecute { flags, exe_or_file, working_dir, arguments };
        Ok((c, 12 + l1 + l2 + l3))
    }
}

/// The contents of a [`ServerExecuteResult`], its string as a character sequence.
pub struct ServerExecuteResultSpec {
    pub flags: ExecFlags,
    pub result: ExecResult,
    pub raw_result: u32,
    pub exe_or_file: Seq<char>,
}

/// `TS_RAIL_ORDER_EXEC_RESULT`
///
/// Sent by the server in response to a [`ClientExecute`] request.
#[derive(Debug, Clone, PartialEq, Eq)]
pub struct ServerExecuteResult {
    pub flags: ExecFlags,
    pub result: ExecResult,
    pub raw_result: u32,
    pub exe_or_file: String,
}

impl View for ServerExecuteResult {
    type V = ServerExecuteResultSpec;

    open spec fn view(&self) -> ServerExecuteResultSpec {
        ServerExecuteResultSpec {
            flags: self.flags,
            result: self.result,
            raw_result: self.raw_result,
            exe_or_file: self.exe_or_file@,
        }
    }
}

/// The body length: Flags, ExecResult, RawResult, Padding, ExeOrFileLength and the string.
pub open spec fn server_execute_result_inner_size(r: ServerExecuteResultSpec) -> int {
    12 + rail_string_len(r.exe_or_file)
}

/// The wire bytes of an execute result PDU, or the error where its length does
/// not fit the 16-bit `orderLength`.
pub open spec fn server_execute_result_bytes(r: ServerExecuteResultSpec) -> Result<
    Seq<u8>,
    EncodeError,
> {
    let body = server_execute_result_inner_size(r);
    if HEADER_SIZE + body > MAX_ORDER_LENGTH {
        Err(EncodeError::InvalidField { field: RailField::OrderLength })
    } else {
        Ok(
            header_bytes(ORDER_TYPE_EXEC_RESULT, body) + le16(r.flags.bits) + le16(
                exec_result_code(r.result),
            ) + le32(r.raw_result) + le16(0) + le16(rail_string_len(r.exe_or_file) as u16)
                + utf16_le_bytes(r.exe_or_file),
        )
    }
}

/// Whether decoding an execute result PDU from `b` stays within `b`.
pub open spec fn server_execute_result_in_bounds(b: Seq<u8>) -> bool {
    b.len() >= 16 ==> 16 + u16_at(b, 14) <= b.len()
}

/// What decoding an execute result PDU from `b` gives; the header's fields and
/// the padding are not looked at.
pub open spec fn parse_server_execute_result(b: Seq<u8>) -> Result<
    (ServerExecuteResultSpec, int),
    DecodeError,
> {
    if b.len() < 4 {
        Err(header_error(b))
    } else if b.len() - 4 < 12 {
        Err(body_error(b, 12))
    } else {
        let end = 16 + u16_at(b, 14);
        match utf16_le_decode(b.subrange(16, end)) {
            None => Err(DecodeError::InvalidField { field: RailField::ExeOrFile }),
            Some(exe_or_file) => Ok(
                (
                    ServerExecuteResultSpec {
                        flags: ExecFlags { bits: u16_at(b, 4) },
                        result: exec_result_of(u16_at(b, 6)),
                        raw_result: u32_at(b, 8),
                        exe_or_file,
                    },
                    end,
                ),
            ),
        }
    }
}

impl ServerExecuteResult {
    pub fn name(&self) -> (r: &'static str)
        ensures
            r@ == "TS_RAIL_ORDER_EXEC_RESULT"@,
    {
        "TS_RAIL_ORDER_EXEC_RESULT"
    }

    /// The body length, without the header.
    pub fn inner_size(&self) -> (r: usize)
        requires
            server_execute_result_inner_size(self@) <= usize::MAX,
        ensures
            r == server_execute_result_inner_size(self@),
    {
        12 + rail_string_byte_len(self.exe_or_file.as_str())
    }

    /// The encoded size, header included.
    pub fn size(&self) -> (r: usize)
        requires
            HEADER_SIZE + server_execute_result_inner_size(self@) <= usize::MAX,
        ensures
            r == HEADER_SIZE + server_execute_result_inner_size(self@),
    {
        HEADER_SIZE + self.inner_size()
    }

    pub fn encode(&self) -> (r: Result<Vec<u8>, EncodeError>)
        ensures
            r matches Ok(b) ==> server_execute_result_bytes(self@) == Ok::<_, EncodeError>(b@),
            r matches Err(e) ==> server_execute_result_bytes(self@) == Err::<Seq<u8>, _>(e),
            r matches Ok(b) ==> u16_at(b@, 2) == b@.len(),
    {
        let mut exe_or_file = utf16_bytes(self.exe_or_file.as_str());
        let len = exe_or_file.len();
        if len > MAX_ORDER_LENGTH {
            return Err(EncodeError::InvalidField { field: RailField::OrderLength });
        }
        let header = RailPduHeader::new(ORDER_TYPE_EXEC_RESULT, 12 + len)?;
        let mut out: Vec<u8> = Vec::new();
        header.encode(&mut out);
        push_u16_le(&mut out, self.flags.bits());
        push_u16_le(&mut out, self.result.to_u16());
        push_u32_le(&mut out, self.raw_result);
        push_u16_le(&mut out, 0);
        push_u16_le(&mut out, len as u16);
        out.append(&mut exe_or_file);
        assert(out@ =~= server_execute_result_bytes(self@)->Ok_0);
        proof {
            roundtrip::lemma_order_length_is_pdu_length(RailPduSpec::ServerExecuteResult(self@));
        }
        Ok(out)
    }

    /// Decodes an execute result PDU from the front of `src`, with the number of bytes read.
    pub fn decode(src: &[u8]) -> (r: Result<(ServerExecuteResult, usize), DecodeError>)
        requires
            server_execute_result_in_bounds(src@),
        ensures
            r matches Ok((v, n)) ==> parse_server_execute_result(src@) == Ok::<_, DecodeError>(
                (v@, n as int),
            ),
            r matches Err(e) ==> parse_server_execute_result(src@) == Err::<
                (ServerExecuteResultSpec, int),
                _,
            >(e),
    {
        let _header = RailPduHeader::decode(src)?;
        ensure_size(src.len() - HEADER_SIZE, 12)?;
        let flags = ExecFlags::from_bits_retain(read_u16_le(src, 4));
        let result = ExecResult::from_u16(read_u16_le(src, 6));
        let raw_result = read_u32_le(src, 8);
        let len = read_u16_le(src, 14) as usize;
        let exe_or_file = read_rail_string(src, 16, len, RailField::ExeOrFile)?;
        Ok((ServerExecuteResult { flags, result, raw_result, exe_or_file }, 16 + len))
    }
}

/// The contents of a [`RailPdu`], its strings as character sequences.
pub enum RailPduSpec {
    Handshake(Handshake),
    ClientStatus(ClientStatus),
    ClientExecute(ClientExecuteSpec),
    ServerExecuteResult(ServerExecuteResultSpec),
    Unknown { order_type: u16 },
}

/// Any PDU exchanged on the `rail` static virtual channel that this crate understands.
///
/// Unrecognized order types are kept as [`RailPdu::Unknown`], so that channel
/// activity can be observed without the channel processor failing.
#[derive(Debug, Clone, PartialEq, Eq)]
pub enum RailPdu {
    Handshake(Handshake),
    ClientStatus(ClientStatus),
    ClientExecute(ClientExecute),
    ServerExecuteResult(ServerExecuteResult),
    /// An order type this crate does not decode further.
    Unknown { order_type: u16 },
}

impl View for RailPdu {
    type V = RailPduSpec;

    open spec fn view(&self) -> RailPduSpec {
        match self {
            RailPdu::Handshake(h) => RailPduSpec::Handshake(*h),
            RailPdu::ClientStatus(c) => RailPduSpec::ClientStatus(*c),
            RailPdu::ClientExecute(c) => RailPduSpec::ClientExecute(c@),
            RailPdu::ServerExecuteResult(r) => RailPduSpec::ServerExecuteResult(r@),
            RailPdu::Unknown { order_type } => RailPduSpec::Unknown { order_type: *order_type },
        }
    }
}

/// The message name of each kind of PDU.
pub open spec fn rail_pdu_message_name(p: RailPduSpec) -> Seq<char> {
    match p {
        RailPduSpec::Handshake(Handshake::Basic { .. }) => "TS_RAIL_ORDER_HANDSHAKE"@,
        RailPduSpec::Handshake(Handshake::Ex { .. }) => "TS_RAIL_ORDER_HANDSHAKE_EX"@,
        RailPduSpec::ClientStatus(_) => "TS_RAIL_ORDER_CLIENTSTATUS"@,
        RailPduSpec::ClientExecute(_) => "TS_RAIL_ORDER_EXEC"@,
        RailPduSpec::ServerExecuteResult(_) => "TS_RAIL_ORDER_EXEC_RESULT"@,
        RailPduSpec::Unknown { .. } => "TS_RAIL_ORDER_UNKNOWN"@,
    }
}

/// The encoded size of a PDU, header included; an unknown PDU has size zero.
pub open spec fn rail_pdu_size(p: RailPduSpec) -> int {
    match p {
        RailPduSpec::Handshake(h) => HEADER_SIZE + handshake_body_len(h),
        RailPduSpec::ClientStatus(_) => HEADER_SIZE + 4,
        RailPduSpec::ClientExecute(c) => HEADER_SIZE + client_execute_inner_size(c),
        RailPduSpec::ServerExecuteResult(r) => HEADER_SIZE + server_execute_result_inner_size(r),
        RailPduSpec::Unknown { .. } => 0,
    }
}

/// The wire bytes of a PDU; an unknown PDU cannot be encoded.
pub open spec fn rail_pdu_bytes(p: RailPduSpec) -> Result<Seq<u8>, EncodeError> {
    match p {
        RailPduSpec::Handshake(h) => Ok(handshake_bytes(h)),
        RailPduSpec::ClientStatus(c) => Ok(client_status_bytes(c)),
        RailPduSpec::ClientExecute(c) => client_execute_bytes(c),
        RailPduSpec::ServerExecuteResult(r) => server_execute_result_bytes(r),
        RailPduSpec::Unknown { .. } => Err(EncodeError::InvalidField { field: RailField::OrderType }),
    }
}

/// How many bytes decoding skips for an unknown order type: the header, then
/// what `orderLength` announces beyond it, but no more than what remains.
pub open spec fn unknown_pdu_len(b: Seq<u8>) -> int {
    let announced = if u16_at(b, 2) >= HEADER_SIZE {
        u16_at(b, 2) - HEADER_SIZE
    } else {
        0
    };
    let remaining = b.len() - HEADER_SIZE;
    HEADER_SIZE + if announced <= remaining {
        announced
    } else {
        remaining
    }
}

/// Whether decoding a PDU from `b` stays within `b`.
pub open spec fn rail_pdu_in_bounds(b: Seq<u8>) -> bool {
    b.len() >= 4 ==> {
        &&& u16_at(b, 0) == ORDER_TYPE_EXEC ==> client_execute_in_bounds(b)
        &&& u16_at(b, 0) == ORDER_TYPE_EXEC_RESULT ==> server_execute_result_in_bounds(b)
    }
}

/// What decoding a PDU from `b` gives: the order type in the header picks the kind.
pub open spec fn parse_rail_pdu(b: Seq<u8>) -> Result<(RailPduSpec, int), DecodeError> {
    if b.len() < 4 {
        Err(header_error(b))
    } else {
        let t = u16_at(b, 0);
        if t == ORDER_TYPE_HANDSHAKE || t == ORDER_TYPE_HANDSHAKE_EX {
            match parse_handshake(b) {
                Ok((h, n)) => Ok((RailPduSpec::Handshake(h), n)),
                Err(e) => Err(e),
            }
        } else if t == ORDER_TYPE_CLIENTSTATUS {
            match parse_client_status(b) {
                Ok((c, n)) => Ok((RailPduSpec::ClientStatus(c), n)),
                Err(e) => Err(e),
            }
        } else if t == ORDER_TYPE_EXEC {
            match parse_client_execute(b) {
                Ok((c, n)) => Ok((RailPduSpec::ClientExecute(c), n)),
                Err(e) => Err(e),
            }
        } else if t == ORDER_TYPE_EXEC_RESULT {
            match parse_server_execute_result(b) {
                Ok((r, n)) => Ok((RailPduSpec::ServerExecuteResult(r), n)),
                Err(e) => Err(e),
            }
        } else {
            Ok((RailPduSpec::Unknown { order_type: t }, unknown_pdu_len(b)))
        }
    }
}

impl RailPdu {
    pub fn message_name(&self) -> (r: &'static str)
        ensures
            r@ == rail_pdu_message_name(self@),
    {
        match self {
            RailPdu::Handshake(Handshake::Basic { .. }) => "TS_RAIL_ORDER_HANDSHAKE",
            RailPdu::Handshake(Handshake::Ex { .. }) => "TS_RAIL_ORDER_HANDSHAKE_EX",
            RailPdu::ClientStatus(_) => "TS_RAIL_ORDER_CLIENTSTATUS",
            RailPdu::ClientExecute(_) => "TS_RAIL_ORDER_EXEC",
            RailPdu::ServerExecuteResult(_) => "TS_RAIL_ORDER_EXEC_RESULT",
            RailPdu::Unknown { .. } => "TS_RAIL_ORDER_UNKNOWN",
        }
    }

    pub fn name(&self) -> (r: &'static str)
        ensures
            r@ == rail_pdu_message_name(self@),
    {
        self.message_name()
    }

    /// The encoded size, header included; zero for an unknown PDU.
    pub fn size(&self) -> (r: usize)
        requires
            rail_pdu_size(self@) <= usize::MAX,
        ensures
            r == rail_pdu_size(self@),
    {
        match self {
            RailPdu::Handshake(pdu) => pdu.size(),
            RailPdu::ClientStatus(pdu) => pdu.size(),
            RailPdu::ClientExecute(pdu) => pdu.size(),
            RailPdu::ServerExecuteResult(pdu) => pdu.size(),
            RailPdu::Unknown { .. } => 0,
        }
    }

    pub fn encode(&self) -> (r: Result<Vec<u8>, EncodeError>)
        ensures
            r matches Ok(b) ==> rail_pdu_bytes(self@) == Ok::<_, EncodeError>(b@),
            r matches Err(e) ==> rail_pdu_bytes(self@) == Err::<Seq<u8>, _>(e),
            r matches Ok(b) ==> u16_at(b@, 2) == b@.len(),
    {
        match self {
            RailPdu::Handshake(pdu) => Ok(pdu.encode()),
            RailPdu::ClientStatus(pdu) => Ok(pdu.encode()),
            RailPdu::ClientExecute(pdu) => pdu.encode(),
            RailPdu::ServerExecuteResult(pdu) => pdu.encode(),
            RailPdu::Unknown { .. } => Err(EncodeError::InvalidField { field: RailField::OrderType }),
        }
    }

    /// Whether decoding `src` stays within it; where it does not, decoding is not defined.
    pub fn decode_in_bounds(src: &[u8]) -> (r: bool)
        ensures
            r == rail_pdu_in_bounds(src@),
    {
        let n = src.len();
        if n < HEADER_SIZE {
            return true;
        }
        let order_type = read_u16_le(src, 0);
        if order_type == ORDER_TYPE_EXEC {
            if n < 12 {
                return true;
            }
            let p1 = 12 + read_u16_le(src, 6) as usize;
            let p2 = p1 + read_u16_le(src, 8) as usize;
            let p3 = p2 + read_u16_le(src, 10) as usize;
            if p1 > n {
                return false;
            }
            if read_rail_string(src, 12, p1 - 12, RailField::ExeOrFile).is_err() {
                return true;
            }
            if p2 > n {
                return false;
            }
            if read_rail_string(src, p1, p2 - p1, RailField::WorkingDir).is_err() {
                return true;
            }
            p3 <= n
        } else if order_type == ORDER_TYPE_EXEC_RESULT {
            n < 16 || 16 + read_u16_le(src, 14) as usize <= n
        } else {
            true
        }
    }

    /// Decodes a PDU from the front of `src`, returning it with the number of bytes read.
    pub fn decode(src: &[u8]) -> (r: Result<(RailPdu, usize), DecodeError>)
        requires
            rail_pdu_in_bounds(src@),
        ensures
            r matches Ok((p, n)) ==> parse_rail_pdu(src@) == Ok::<_, DecodeError>((p@, n as int)),
            r matches Err(e) ==> parse_rail_pdu(src@) == Err::<(RailPduSpec, int), _>(e),
            r matches Ok((RailPdu::Unknown { .. }, n)) ==> {
                &&& HEADER_SIZE <= u16_at(src@, 2) <= src@.len() ==> n == u16_at(src@, 2)
                &&& u16_at(src@, 2) < HEADER_SIZE ==> n == HEADER_SIZE
                &&& u16_at(src@, 2) > src@.len() ==> n == src@.len()
            },
    {
        ensure_size(src.len(), HEADER_SIZE)?;
        let order_type = read_u16_le(src, 0);
        if order_type == ORDER_TYPE_HANDSHAKE || order_type == ORDER_TYPE_HANDSHAKE_EX {
            let (h, n) = Handshake::decode(src)?;
            Ok((RailPdu::Handshake(h), n))
        } else if order_type == ORDER_TYPE_CLIENTSTATUS {
            let (c, n) = ClientStatus::decode(src)?;
            Ok((RailPdu::ClientStatus(c), n))
        } else if order_type == ORDER_TYPE_EXEC {
            let (c, n) = ClientExecute::decode(src)?;
            Ok((RailPdu::ClientExecute(c), n))
        } else if order_type == ORDER_TYPE_EXEC_RESULT {
            let (r, n) = ServerExecuteResult::decode(src)?;
            Ok((RailPdu::ServerExecuteResult(r), n))
        } else {
            let header = RailPduHeader::decode(src)?;
            let order_length = header.order_length as usize;
            let announced = if order_length >= HEADER_SIZE {
                order_length - HEADER_SIZE
            } else {
                0
            };
            let remaining = src.len() - HEADER_SIZE;
            let skipped = if announced <= remaining {
                announced
            } else {
                remaining
            };
            Ok((RailPdu::Unknown { order_type }, HEADER_SIZE + skipped))
        }
    }
}

} // verus!
