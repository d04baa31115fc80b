//! The radio's API frames and the codec between them and their bytes.
//!
//! Outgoing frames are assembled in a `bytes::BytesMut`; incoming frames are
//! decoded from a byte slice that the caller has read. What the bytes of a
//! frame are is laid down in `crate::wire`.

use vstd::prelude::*;
use bytes::BytesMut;
use rand::Rng;
use crate::buffer::{
    buffer_bytes, buffer_new, buffer_put, buffer_put_u16, buffer_put_u64, buffer_put_u8,
    buffer_slice,
};
use crate::checksum::{calc_checksum, checksum_of, checksum_ok, verify_checksum};
use crate::endian::{be16, lemma_be64_len, read_be16, read_be64};
use crate::error::Error;
use crate::wire::{
    awaited_frame, bytes_as_optional, declared_len, decode_spec, frame_bytes, header_ok,
    lemma_own_frame_id, optional_bytes, parse_body, unsealed_bytes, FrameView,
};

verus! {

/// The start delimiter of every frame.
pub const DELIM: u8 = 0x7e;

/// The destination address that reaches every module in range.
pub const BROADCAST_ADDR: u64 = 0xffff;

/// The reserved 16-bit network address written after every destination.
pub const RESERVED_NETWORK_ADDR: u16 = 0xfffe;

/// The longest payload, parameter or data field a frame may carry.
pub const MAX_PAYLOAD_LEN: usize = 65535 - 112;

/// Type byte of a transmit request.
pub const TYPE_TRANSMIT_REQUEST: u8 = 0x10;

/// Type byte of a remote AT command.
pub const TYPE_REMOTE_AT_COMMAND: u8 = 0x17;

/// Type byte of a transmit status.
pub const TYPE_TRANSMIT_STATUS: u8 = 0x8b;

/// Type byte of received data.
pub const TYPE_RECEIVE_DATA: u8 = 0x90;

/// Type byte of the answer to a remote AT command.
pub const TYPE_REMOTE_AT_RESPONSE: u8 = 0x91;

/// The kinds of frame the coordinator tells apart by identifier.
#[derive(Debug, Clone, Copy, PartialEq, Eq, Structural)]
pub enum FrameId {
    TransmitRequest,
    TransmitStatus,
    Null,
}

impl FrameId {
    /// The identifier byte of each kind.
    pub open spec fn spec_id(self) -> u8 {
        match self {
            FrameId::TransmitRequest => 0x90,
            FrameId::TransmitStatus => 0x8b,
            FrameId::Null => 0xff,
        }
    }

    /// The identifier byte under which frames of this kind arrive.
    pub fn id(&self) -> (b: u8)
        ensures
            b == self.spec_id(),
    {
        match *self {
            FrameId::TransmitRequest => 0x90,
            FrameId::TransmitStatus => 0x8b,
            FrameId::Null => 0xff,
        }
    }
}

/// The kinds of frame that arrive at the coordinator in answer to what it
/// sent.
#[derive(Debug, Clone, Copy, PartialEq, Eq, Structural)]
pub enum ResponseType {
    ReceiveData,
    RemoteAtResponse,
    TransmitStatus,
}

/// How the mesh forwards a transmit request.
#[derive(Debug, Clone, Copy, PartialEq, Eq, Structural)]
pub enum MessagingMode {
    PointToPoint,
    Repeater,
    DigiMesh,
}

impl MessagingMode {
    /// The mode's number in the two top bits of the options byte.
    pub open spec fn number(self) -> int {
        match self {
            MessagingMode::PointToPoint => 1,
            MessagingMode::Repeater => 2,
            MessagingMode::DigiMesh => 3,
        }
    }
}

/// The options of a transmit request, field by field.
#[derive(Debug, Clone, Copy, PartialEq, Eq, Structural)]
pub struct TransmitRequestOptions {
    pub disable_ack: bool,
    pub disable_route_discovery: bool,
    pub enable_unicast_nack: bool,
    pub enable_unicast_trace_route: bool,
    pub mode: MessagingMode,
}

impl TransmitRequestOptions {
    /// The options byte: one bit per flag from bit 0 up, the mode in bits 6
    /// and 7.
    pub open spec fn spec_compile(self) -> u8 {
        ((if self.disable_ack { 1int } else { 0 }) + (if self.disable_route_discovery { 2int } else { 0 })
            + (if self.enable_unicast_nack { 4int } else { 0 }) + (if self.enable_unicast_trace_route {
            8int
        } else {
            0
        }) + 64 * self.mode.number()) as u8
    }

    /// Packs the options into the byte that goes on the wire.
    pub fn compile(&self) -> (b: u8)
        ensures
            b == self.spec_compile(),
    {
        let mut val: u8 = 0;
        if self.disable_ack {
            val = val + 1;
        }
        if self.disable_route_discovery {
            val = val + 2;
        }
        if self.enable_unicast_nack {
            val = val + 4;
        }
        if self.enable_unicast_trace_route {
            val = val + 8;
        }
        match self.mode {
            MessagingMode::PointToPoint => 64 + val,
            MessagingMode::Repeater => 128 + val,
            MessagingMode::DigiMesh => 192 + val,
        }
    }
}

/// The options of a remote AT command.
#[derive(Debug, Clone, Copy, PartialEq, Eq, Structural)]
pub struct RemoteCommandOptions {
    pub apply_changes: bool,
}

impl RemoteCommandOptions {
    /// The options byte: bit 1 asks the module to apply the change at once.
    pub open spec fn spec_compile(self) -> u8 {
        if self.apply_changes {
            2
        } else {
            0
        }
    }

    /// The options that an options byte stands for: only bit 1 counts.
    pub open spec fn spec_parse(b: u8) -> RemoteCommandOptions {
        RemoteCommandOptions { apply_changes: b / 2 % 2 == 1 }
    }

    /// Packs the options into the byte that goes on the wire.
    pub fn compile(&self) -> (b: u8)
        ensures
            b == self.spec_compile(),
    {
        if self.apply_changes {
            2
        } else {
            0
        }
    }

    /// Reads the options out of an options byte.
    pub fn parse(b: u8) -> (o: RemoteCommandOptions)
        ensures
            o == Self::spec_parse(b),
    {
        RemoteCommandOptions { apply_changes: b / 2 % 2 == 1 }
    }
}

/// A frame id drawn from `rand::thread_rng`. Any byte may come back.
#[verifier::external_body]
pub(crate) fn random_frame_id() -> (id: u8) {
    rand::thread_rng().gen()
}

/// A request to deliver `payload` to the module at `dest_addr`.
#[derive(Debug, Clone, PartialEq, Eq)]
pub struct TransmitRequestFrame {
    pub dest_addr: u64,
    pub broadcast_radius: u8,
    /// The options byte; 0 when no option is asked for.
    pub options: u8,
    pub payload: Vec<u8>,
}

/// A request that the module at `dest_addr` run an AT command.
#[derive(Debug, Clone, PartialEq, Eq)]
pub struct RemoteAtCommandFrame {
    pub dest_addr: u64,
    pub options: RemoteCommandOptions,
    /// The two characters of the command.
    pub atcmd: [u8; 2],
    pub cmd_param: Option<Vec<u8>>,
}

/// Data received from the module at `source_addr`.
#[derive(Debug, Clone, PartialEq, Eq)]
pub struct RecieveRequestFrame {
    pub source_addr: u64,
    pub recv_options: u8,
    pub rf_data: Vec<u8>,
}

/// A module's answer to a remote AT command.
#[derive(Debug, Clone, PartialEq, Eq)]
pub struct RemoteAtCommandResponse {
    pub frame_id: u8,
    pub source_addr: u64,
    /// The command, echoed.
    pub atcmd: [u8; 2],
    pub status: u8,
    pub command_data: Option<Vec<u8>>,
}

/// The radio's report on a transmit request.
#[derive(Debug, Clone, Copy, PartialEq, Eq, Structural)]
pub struct TransmitStatus {
    pub frame_id: u8,
    pub transmit_retry_count: u8,
    pub deliver_status: u8,
    pub discovery_status: u8,
}

/// The frame that is received when nothing is awaited: it reads nothing and
/// holds nothing.
#[derive(Debug, Clone, Copy, PartialEq, Eq, Structural)]
pub struct NullRecieve;

impl NullRecieve {
    /// The kind of frame this is.
    pub fn id(&self) -> (k: FrameId)
        ensures
            k == FrameId::Null,
    {
        FrameId::Null
    }

    /// Receives the frame: whatever the bytes, nothing is taken from them.
    pub fn recieve(bytes: &[u8]) -> (r: Result<Self, Error>)
        ensures
            r == Ok::<NullRecieve, Error>(NullRecieve),
    {
        Ok(NullRecieve)
    }
}

/// Any frame of the protocol.
#[derive(Debug, Clone, PartialEq, Eq)]
pub enum Frame {
    TransmitRequest(TransmitRequestFrame),
    RemoteAtCommand(RemoteAtCommandFrame),
    ReceiveData(RecieveRequestFrame),
    RemoteAtCommandResponse(RemoteAtCommandResponse),
    TransmitStatus(TransmitStatus),
}

/// The view of an optional byte vector.
pub open spec fn optional_view(o: Option<Vec<u8>>) -> Option<Seq<u8>> {
    match o {
        Some(v) => Some(v@),
        None => None,
    }
}

impl View for TransmitRequestFrame {
    type V = FrameView;

    open spec fn view(&self) -> FrameView {
        FrameView::TransmitRequest {
            dest_addr: self.dest_addr,
            broadcast_radius: self.broadcast_radius,
            options: self.options,
            payload: self.payload@,
        }
    }
}

impl View for RemoteAtCommandFrame {
    type V = FrameView;

    open spec fn view(&self) -> FrameView {
        FrameView::RemoteAtCommand {
            dest_addr: self.dest_addr,
            options: self.options,
            atcmd: (self.atcmd@[0], self.atcmd@[1]),
            cmd_param: optional_view(self.cmd_param),
        }
    }
}

impl View for RecieveRequestFrame {
    type V = FrameView;

    open spec fn view(&self) -> FrameView {
        FrameView::ReceiveData {
            source_addr: self.source_addr,
            recv_options: self.recv_options,
            rf_data: self.rf_data@,
        }
    }
}

impl View for RemoteAtCommandResponse {
    type V = FrameView;

    open spec fn view(&self) -> FrameView {
        FrameView::RemoteAtCommandResponse {
            frame_id: self.frame_id,
            source_addr: self.source_addr,
            atcmd: (self.atcmd@[0], self.atcmd@[1]),
            status: self.status,
            command_data: optional_view(self.command_data),
        }
    }
}

impl View for TransmitStatus {
    type V = FrameView;

    open spec fn view(&self) -> FrameView {
        FrameView::TransmitStatus {
            frame_id: self.frame_id,
            transmit_retry_count: self.transmit_retry_count,
            deliver_status: self.deliver_status,
            discovery_status: self.discovery_status,
        }
    }
}

impl View for Frame {
    type V = FrameView;

    open spec fn view(&self) -> FrameView {
        match *self {
            Frame::TransmitRequest(f) => f@,
            Frame::RemoteAtCommand(f) => f@,
            Frame::ReceiveData(f) => f@,
            Frame::RemoteAtCommandResponse(f) => f@,
            Frame::TransmitStatus(f) => f@,
        }
    }
}

/// What an encoder returns for `frame`: the wire bytes when the frame is
/// encodable, `PayloadTooLarge` when it is not.
pub open spec fn encoded_as(frame: FrameView, frame_id: u8, r: Result<BytesMut, Error>) -> bool {
    match r {
        Ok(packet) => frame.encodable() && buffer_bytes(packet) == frame.wire(frame_id),
        Err(e) => !frame.encodable() && e == Error::PayloadTooLarge,
    }
}

/// Starts a packet: the delimiter and the length of the body to come.
fn open_packet(body_len: u16) -> (packet: BytesMut)
    ensures
        buffer_bytes(packet) == seq![DELIM] + be16(body_len),
{
    let mut packet = buffer_new();
    buffer_put_u8(&mut packet, DELIM);
    buffer_put_u16(&mut packet, body_len);
    packet
}

/// Ends a packet: the checksum of what it holds is appended.
fn seal_packet(packet: &mut BytesMut, Ghost(body): Ghost<Seq<u8>>)
    requires
        2 <= body.len() <= 65535,
        buffer_bytes(*old(packet)) == unsealed_bytes(body),
    ensures
        buffer_bytes(*final(packet)) == frame_bytes(body),
{
    match calc_checksum(buffer_slice(packet)) {
        Ok(c) => {
            buffer_put_u8(packet, c);
        },
        Err(_) => {
            // Not reached: header and body make five bytes or more.
            assert(false);
        },
    }
}

impl TransmitRequestFrame {
    /// A transmit request with the options byte compiled from `options`, or
    /// 0 when there are none.
    pub fn new(
        dest_addr: u64,
        broadcast_radius: u8,
        options: Option<&TransmitRequestOptions>,
        payload: &[u8],
    ) -> (f: TransmitRequestFrame)
        ensures
            f.dest_addr == dest_addr,
            f.broadcast_radius == broadcast_radius,
            f.options == match options {
                Some(o) => o.spec_compile(),
                None => 0u8,
            },
            f.payload@ == payload@,
    {
        let byte = match options {
            Some(o) => o.compile(),
            None => 0,
        };
        TransmitRequestFrame {
            dest_addr,
            broadcast_radius,
            options: byte,
            payload: vstd::slice::slice_to_vec(payload),
        }
    }

    /// The kind of frame that answers a transmit request.
    pub fn id(&self) -> (k: FrameId)
        ensures
            k == FrameId::TransmitRequest,
    {
        FrameId::TransmitRequest
    }

    /// Encodes the request under the given frame id.
    pub fn gen_with_id(&self, frame_id: u8) -> (r: Result<BytesMut, Error>)
        ensures
            encoded_as(self@, frame_id, r),
    {
        if self.payload.len() > MAX_PAYLOAD_LEN {
            return Err(Error::PayloadTooLarge);
        }
        let body_len: u16 = (self.payload.len() as u16) + 0x0e;
        let mut packet = open_packet(body_len);
        buffer_put_u8(&mut packet, TYPE_TRANSMIT_REQUEST);
        buffer_put_u8(&mut packet, frame_id);
        proof {
            lemma_be64_len(self.dest_addr);
        }
        buffer_put_u64(&mut packet, self.dest_addr);
        buffer_put_u16(&mut packet, RESERVED_NETWORK_ADDR);
        buffer_put_u8(&mut packet, self.broadcast_radius);
        buffer_put_u8(&mut packet, self.options);
        buffer_put(&mut packet, self.payload.as_slice());
        let ghost body = self@.body(frame_id);
        assert(buffer_bytes(packet) =~= unsealed_bytes(body));
        seal_packet(&mut packet, Ghost(body));
        Ok(packet)
    }

    /// Encodes the request under a frame id drawn at random.
    pub fn gen(&self) -> (r: Result<BytesMut, Error>)
        ensures
            exists|frame_id: u8| encoded_as(self@, frame_id, r),
    {
        let frame_id = random_frame_id();
        self.gen_with_id(frame_id)
    }
}

/// The length of an optional field on the wire.
fn optional_len(o: &Option<Vec<u8>>) -> (n: usize)
    ensures
        n == optional_bytes(optional_view(*o)).len(),
{
    match o {
        Some(v) => v.len(),
        None => 0,
    }
}

/// Appends an optional field to a packet.
fn put_optional(packet: &mut BytesMut, o: &Option<Vec<u8>>)
    requires
        buffer_bytes(*old(packet)).len() + optional_bytes(optional_view(*o)).len() <= isize::MAX,
    ensures
        buffer_bytes(*final(packet)) == buffer_bytes(*old(packet)) + optional_bytes(
            optional_view(*o),
        ),
{
    match o {
        Some(v) => {
            buffer_put(packet, v.as_slice());
        },
        None => {},
    }
}

impl RemoteAtCommandFrame {
    /// Encodes the command under the given frame id.
    pub fn gen_with_id(&self, frame_id: u8) -> (r: Result<BytesMut, Error>)
        ensures
            encoded_as(self@, frame_id, r),
    {
        let param_len = optional_len(&self.cmd_param);
        if param_len > MAX_PAYLOAD_LEN {
            return Err(Error::PayloadTooLarge);
        }
        let body_len: u16 = (param_len as u16) + 15;
        let mut packet = open_packet(body_len);
        buffer_put_u8(&mut packet, TYPE_REMOTE_AT_COMMAND);
        buffer_put_u8(&mut packet, frame_id);
        proof {
            lemma_be64_len(self.dest_addr);
        }
        buffer_put_u64(&mut packet, self.dest_addr);
        buffer_put_u16(&mut packet, RESERVED_NETWORK_ADDR);
        buffer_put_u8(&mut packet, self.options.compile());
        buffer_put_u8(&mut packet, self.atcmd[0]);
        buffer_put_u8(&mut packet, self.atcmd[1]);
        put_optional(&mut packet, &self.cmd_param);
        let ghost body = self@.body(frame_id);
        assert(buffer_bytes(packet) =~= unsealed_bytes(body));
        seal_packet(&mut packet, Ghost(body));
        Ok(packet)
    }

    /// Encodes the command under a frame id drawn at random.
    pub fn gen(&self) -> (r: Result<BytesMut, Error>)
        ensures
            exists|frame_id: u8| encoded_as(self@, frame_id, r),
    {
        let frame_id = random_frame_id();
        self.gen_with_id(frame_id)
    }
}

impl RecieveRequestFrame {
    /// Encodes the frame as a module's radio would deliver it.
    pub fn gen(&self) -> (r: Result<BytesMut, Error>)
        ensures
            encoded_as(self@, 0, r),
    {
        if self.rf_data.len() > MAX_PAYLOAD_LEN {
            return Err(Error::PayloadTooLarge);
        }
        let body_len: u16 = (self.rf_data.len() as u16) + 10;
        let mut packet = open_packet(body_len);
        buffer_put_u8(&mut packet, TYPE_RECEIVE_DATA);
        proof {
            lemma_be64_len(self.source_addr);
        }
        buffer_put_u64(&mut packet, self.source_addr);
        buffer_put_u8(&mut packet, self.recv_options);
        buffer_put(&mut packet, self.rf_data.as_slice());
        let ghost body = self@.body(0);
        assert(buffer_bytes(packet) =~= unsealed_bytes(body));
        seal_packet(&mut packet, Ghost(body));
        Ok(packet)
    }
}

impl RemoteAtCommandResponse {
    /// Encodes the response as a module's radio would deliver it.
    pub fn gen(&self) -> (r: Result<BytesMut, Error>)
        ensures
            encoded_as(self@, self.frame_id, r),
    {
        let data_len = optional_len(&self.command_data);
        if data_len > MAX_PAYLOAD_LEN {
            return Err(Error::PayloadTooLarge);
        }
        let body_len: u16 = (data_len as u16) + 15;
        let mut packet = open_packet(body_len);
        buffer_put_u8(&mut packet, TYPE_REMOTE_AT_RESPONSE);
        buffer_put_u8(&mut packet, self.frame_id);
        proof {
            lemma_be64_len(self.source_addr);
        }
        buffer_put_u64(&mut packet, self.source_addr);
        buffer_put_u16(&mut packet, RESERVED_NETWORK_ADDR);
        buffer_put_u8(&mut packet, self.atcmd[0]);
        buffer_put_u8(&mut packet, self.atcmd[1]);
        buffer_put_u8(&mut packet, self.status);
        put_optional(&mut packet, &self.command_data);
        let ghost body = self@.body(0);
        assert(buffer_bytes(packet) =~= unsealed_bytes(body));
        seal_packet(&mut packet, Ghost(body));
        Ok(packet)
    }
}

impl TransmitStatus {
    /// A status with every field zero.
    pub fn default() -> (s: Self)
        ensures
            s == (TransmitStatus {
                frame_id: 0,
                transmit_retry_count: 0,
                deliver_status: 0,
                discovery_status: 0,
            }),
    {
        Self { frame_id: 0, transmit_retry_count: 0, deliver_status: 0, discovery_status: 0 }
    }

    /// The kind of frame this is.
    pub fn id(&self) -> (k: FrameId)
        ensures
            k == FrameId::TransmitStatus,
    {
        FrameId::TransmitStatus
    }

    /// Encodes the status as the radio would deliver it.
    pub fn gen(&self) -> (r: Result<BytesMut, Error>)
        ensures
            encoded_as(self@, self.frame_id, r),
    {
        let mut packet = open_packet(7);
        buffer_put_u8(&mut packet, TYPE_TRANSMIT_STATUS);
        buffer_put_u8(&mut packet, self.frame_id);
        buffer_put_u16(&mut packet, RESERVED_NETWORK_ADDR);
        buffer_put_u8(&mut packet, self.transmit_retry_count);
        buffer_put_u8(&mut packet, self.deliver_status);
        buffer_put_u8(&mut packet, self.discovery_status);
        let ghost body = self@.body(0);
        assert(buffer_bytes(packet) =~= unsealed_bytes(body));
        seal_packet(&mut packet, Ghost(body));
        Ok(packet)
    }
}

impl Frame {
    /// Encodes the frame. `frame_id` goes into a transmit request or a remote
    /// AT command; the other kinds carry their own or none.
    pub fn encode(&self, frame_id: u8) -> (r: Result<BytesMut, Error>)
        ensures
            encoded_as(self@, frame_id, r),
    {
        proof {
            if !self@.takes_frame_id() {
                lemma_own_frame_id(self@, frame_id, 0);
                lemma_own_frame_id(self@, frame_id, self@.own_frame_id());
            }
        }
        match self {
            Frame::TransmitRequest(f) => f.gen_with_id(frame_id),
            Frame::RemoteAtCommand(f) => f.gen_with_id(frame_id),
            Frame::ReceiveData(f) => f.gen(),
            Frame::RemoteAtCommandResponse(f) => f.gen(),
            Frame::TransmitStatus(f) => f.gen(),
        }
    }
}

/// What a decoder returns when the model says `expected`.
pub open spec fn decoded_as(expected: Result<FrameView, Error>, r: Result<Frame, Error>) -> bool {
    match r {
        Ok(frame) => expected == Ok::<FrameView, Error>(frame@),
        Err(e) => expected == Err::<FrameView, Error>(e),
    }
}

/// The bytes of `body` from `from` on, as an owned vector.
fn tail_of(body: &[u8], from: usize) -> (v: Vec<u8>)
    requires
        from <= body@.len(),
    ensures
        v@ == body@.skip(from as int),
{
    let tail = vstd::slice::slice_subrange(body, from, body.len());
    vstd::slice::slice_to_vec(tail)
}

/// The bytes of `body` from `from` on as an optional field: absent when
/// there are none.
fn optional_tail_of(body: &[u8], from: usize) -> (o: Option<Vec<u8>>)
    requires
        from <= body@.len(),
    ensures
        optional_view(o) == bytes_as_optional(body@.skip(from as int)),
{
    if body.len() == from {
        None
    } else {
        Some(tail_of(body, from))
    }
}

impl Frame {
    /// Decodes a frame body, type byte first, without header or checksum.
    pub fn decode_body(body: &[u8]) -> (r: Result<Frame, Error>)
        ensures
            decoded_as(parse_body(body@), r),
    {
        if body.len() == 0 {
            return Err(Error::FramingError);
        }
        let kind = body[0];
        if kind == TYPE_TRANSMIT_REQUEST && body.len() >= 14 {
            Ok(
                Frame::TransmitRequest(
                    TransmitRequestFrame {
                        dest_addr: read_be64(body, 2),
                        broadcast_radius: body[12],
                        options: body[13],
                        payload: tail_of(body, 14),
                    },
                ),
            )
        } else if kind == TYPE_REMOTE_AT_COMMAND && body.len() >= 15 {
            Ok(
                Frame::RemoteAtCommand(
                    RemoteAtCommandFrame {
                        dest_addr: read_be64(body, 2),
                        options: RemoteCommandOptions::parse(body[12]),
                        atcmd: [body[13], body[14]],
                        cmd_param: optional_tail_of(body, 15),
                    },
                ),
            )
        } else if kind == TYPE_RECEIVE_DATA && body.len() >= 10 {
            Ok(
                Frame::ReceiveData(
                    RecieveRequestFrame {
                        source_addr: read_be64(body, 1),
                        recv_options: body[9],
                        rf_data: tail_of(body, 10),
                    },
                ),
            )
        } else if kind == TYPE_REMOTE_AT_RESPONSE && body.len() >= 15 {
            Ok(
                Frame::RemoteAtCommandResponse(
                    RemoteAtCommandResponse {
                        frame_id: body[1],
                        source_addr: read_be64(body, 2),
                        atcmd: [body[12], body[13]],
                        status: body[14],
                        command_data: optional_tail_of(body, 15),
                    },
                ),
            )
        } else if kind == TYPE_TRANSMIT_STATUS && body.len() >= 7 {
            Ok(
                Frame::TransmitStatus(
                    TransmitStatus {
                        frame_id: body[1],
                        transmit_retry_count: body[4],
                        deliver_status: body[5],
                        discovery_status: body[6],
                    },
                ),
            )
        } else {
            Err(Error::FramingError)
        }
    }

    /// Given the three header bytes, tells how many more bytes the frame
    /// has: its body and the checksum byte.
    pub fn remaining_len(header: &[u8]) -> (r: Result<usize, Error>)
        ensures
            header_ok(header@) <==> r is Ok,
            r matches Err(e) ==> e == Error::FramingError,
            r matches Ok(n) ==> n == declared_len(header@) + 1,
    {
        if header.len() < 3 || header[0] != DELIM {
            return Err(Error::FramingError);
        }
        let n: usize = read_be16(header, 1) as usize;
        Ok(n + 1)
    }

    /// Decodes the frame that `bytes` starts with.
    pub fn decode(bytes: &[u8]) -> (r: Result<Frame, Error>)
        ensures
            decoded_as(decode_spec(bytes@), r),
    {
        let rest = match Frame::remaining_len(bytes) {
            Ok(n) => n,
            Err(e) => {
                return Err(e);
            },
        };
        if bytes.len() - 3 < rest {
            return Err(Error::TransportError);
        }
        let frame = vstd::slice::slice_subrange(bytes, 0, 3 + rest);
        match verify_checksum(frame) {
            Ok(true) => {},
            Ok(false) => {
                return Err(Error::ChecksumMismatch);
            },
            Err(e) => {
                return Err(e);
            },
        }
        let body = vstd::slice::slice_subrange(bytes, 3, 3 + rest - 1);
        Frame::decode_body(body)
    }
}

/// The bare frame builder: it knows the delimiter and seals what it builds.
#[derive(Debug, Clone, Copy, PartialEq, Eq, Structural)]
pub struct ApiFrame {
    delim: u8,
    length: u16,
    checksum: u8,
}

impl ApiFrame {
    /// The delimiter the builder starts its frames with.
    pub closed spec fn delim(&self) -> u8 {
        self.delim
    }

    /// The body length the builder has recorded.
    pub closed spec fn length(&self) -> u16 {
        self.length
    }

    /// The checksum the builder has recorded.
    pub closed spec fn checksum(&self) -> u8 {
        self.checksum
    }

    /// A builder that has built nothing yet.
    pub fn new() -> (f: Self)
        ensures
            f.delim() == DELIM,
            f.length() == 0,
            f.checksum() == 0,
    {
        Self { delim: DELIM, length: 0, checksum: 0 }
    }

    /// Encodes a transmit request under a frame id drawn at random. The
    /// builder itself is left as it was.
    pub fn transmit_request(
        &mut self,
        dest_addr: u64,
        broad_cast_radius: u8,
        options: u8,
        payload: &[u8],
    ) -> (r: Result<BytesMut, Error>)
        ensures
            *final(self) == *old(self),
            exists|frame_id: u8|
                encoded_as(
                    FrameView::TransmitRequest {
                        dest_addr,
                        broadcast_radius: broad_cast_radius,
                        options,
                        payload: payload@,
                    },
                    frame_id,
                    r,
                ),
    {
        let request = TransmitRequestFrame {
            dest_addr,
            broadcast_radius: broad_cast_radius,
            options,
            payload: vstd::slice::slice_to_vec(payload),
        };
        request.gen()
    }

    /// Computes the checksum of `frame`, which holds the header and the body
    /// but not yet the checksum byte.
    pub fn calc_checksum(&self, frame: &[u8]) -> (r: Result<u8, Error>)
        ensures
            frame@.len() < 5 <==> r is Err,
            r matches Err(e) ==> e == Error::FrameTooShort,
            r matches Ok(c) ==> c == checksum_of(frame@),
    {
        calc_checksum(frame)
    }

    /// Checks the trailing checksum byte of a complete frame.
    pub fn verify_checksum(&self, frame: &[u8]) -> (r: Result<bool, Error>)
        ensures
            frame@.len() < 6 <==> r is Err,
            r matches Err(e) ==> e == Error::FrameTooShort,
            r matches Ok(ok) ==> ok == checksum_ok(frame@),
    {
        verify_checksum(frame)
    }
}

/// What a receiver returns when the model says `expected`.
pub open spec fn received_as<F: View<V = FrameView>>(
    expected: Result<FrameView, Error>,
    r: Result<F, Error>,
) -> bool {
    match r {
        Ok(frame) => expected == Ok::<FrameView, Error>(frame@),
        Err(e) => expected == Err::<FrameView, Error>(e),
    }
}

impl RecieveRequestFrame {
    /// Takes the frame that `bytes` starts with as the data frame that is
    /// awaited.
    pub fn recieve(bytes: &[u8]) -> (r: Result<Self, Error>)
        ensures
            received_as(awaited_frame(bytes@, ResponseType::ReceiveData), r),
    {
        match Frame::decode(bytes) {
            Ok(Frame::ReceiveData(frame)) => Ok(frame),
            Ok(_) => Err(Error::FramingError),
            Err(e) => Err(e),
        }
    }
}

impl RemoteAtCommandResponse {
    /// Takes the frame that `bytes` starts with as the response to a remote
    /// AT command that is awaited.
    pub fn recieve(bytes: &[u8]) -> (r: Result<Self, Error>)
        ensures
            received_as(awaited_frame(bytes@, ResponseType::RemoteAtResponse), r),
    {
        match Frame::decode(bytes) {
            Ok(Frame::RemoteAtCommandResponse(frame)) => Ok(frame),
            Ok(_) => Err(Error::FramingError),
            Err(e) => Err(e),
        }
    }
}

impl TransmitStatus {
    /// Takes the frame that `bytes` starts with as the transmit status that
    /// is awaited.
    pub fn recieve(bytes: &[u8]) -> (r: Result<Self, Error>)
        ensures
            received_as(awaited_frame(bytes@, ResponseType::TransmitStatus), r),
    {
        match Frame::decode(bytes) {
            Ok(Frame::TransmitStatus(frame)) => Ok(frame),
            Ok(_) => Err(Error::FramingError),
            Err(e) => Err(e),
        }
    }
}

} // verus!
