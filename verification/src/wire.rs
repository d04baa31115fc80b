//! The wire format as mathematics: what a frame is, which bytes stand for
//! it, which frame given bytes stand for, and the laws that tie the two
//! together.
//!
//! Every wire frame is `0x7E`, a 16-bit big-endian length, the body, and one
//! checksum byte. The length counts the body alone. The body starts with
//! the type byte:
//!
//! | kind | type | fields after the type byte |
//! |---|---|---|
//! | transmit request | `0x10` | frame id, 64-bit destination, reserved `0xFFFE`, broadcast radius, options, payload |
//! | remote AT command | `0x17` | frame id, 64-bit destination, reserved `0xFFFE`, options, 2-byte command, parameter |
//! | receive data | `0x90` | 64-bit source, receive options, payload |
//! | remote AT response | `0x91` | frame id, 64-bit source, reserved `0xFFFE`, 2-byte command, status, data |
//! | transmit status | `0x8B` | frame id, reserved `0xFFFE`, retry count, delivery status, discovery status |

use vstd::prelude::*;
use crate::api::{
    RemoteCommandOptions, ResponseType, DELIM, MAX_PAYLOAD_LEN, RESERVED_NETWORK_ADDR, TYPE_RECEIVE_DATA,
    TYPE_REMOTE_AT_COMMAND, TYPE_REMOTE_AT_RESPONSE, TYPE_TRANSMIT_REQUEST, TYPE_TRANSMIT_STATUS,
};
use crate::checksum::{checksum_of, checksum_ok, lemma_corruption_detected, lemma_sealed_frame_checks};
use crate::endian::{be16, be16_value, be64, be64_value, lemma_be16_round_trip, lemma_be64_len, lemma_be64_round_trip};
use crate::error::Error;

verus! {

/// A frame as a mathematical value.
#[allow(inconsistent_fields)]
pub enum FrameView {
    TransmitRequest { dest_addr: u64, broadcast_radius: u8, options: u8, payload: Seq<u8> },
    RemoteAtCommand {
        dest_addr: u64,
        options: RemoteCommandOptions,
        atcmd: (u8, u8),
        cmd_param: Option<Seq<u8>>,
    },
    ReceiveData { source_addr: u64, recv_options: u8, rf_data: Seq<u8> },
    RemoteAtCommandResponse {
        frame_id: u8,
        source_addr: u64,
        atcmd: (u8, u8),
        status: u8,
        command_data: Option<Seq<u8>>,
    },
    TransmitStatus {
        frame_id: u8,
        transmit_retry_count: u8,
        deliver_status: u8,
        discovery_status: u8,
    },
}

/// The bytes of an optional field: nothing when it is absent.
pub open spec fn optional_bytes(o: Option<Seq<u8>>) -> Seq<u8> {
    match o {
        Some(s) => s,
        None => Seq::<u8>::empty(),
    }
}

/// The optional field that trailing bytes stand for: absent when there are
/// none.
pub open spec fn bytes_as_optional(s: Seq<u8>) -> Option<Seq<u8>> {
    if s.len() == 0 {
        None
    } else {
        Some(s)
    }
}

impl FrameView {
    /// The part of the frame whose length varies.
    pub open spec fn variable_part(self) -> Seq<u8> {
        match self {
            FrameView::TransmitRequest { payload, .. } => payload,
            FrameView::RemoteAtCommand { cmd_param, .. } => optional_bytes(cmd_param),
            FrameView::ReceiveData { rf_data, .. } => rf_data,
            FrameView::RemoteAtCommandResponse { command_data, .. } => optional_bytes(command_data),
            FrameView::TransmitStatus { .. } => Seq::<u8>::empty(),
        }
    }

    /// Whether the frame fits the wire format.
    pub open spec fn encodable(self) -> bool {
        self.variable_part().len() <= MAX_PAYLOAD_LEN
    }

    /// Whether decoding can give this value back: it is encodable, and an
    /// optional field that is present is not empty.
    pub open spec fn representable(self) -> bool {
        &&& self.encodable()
        &&& match self {
            FrameView::RemoteAtCommand { cmd_param, .. } => cmd_param is Some ==> cmd_param->0.len() > 0,
            FrameView::RemoteAtCommandResponse { command_data, .. } => command_data is Some
                ==> command_data->0.len() > 0,
            _ => true,
        }
    }

    /// The fixed fields in front of the variable part, type byte first.
    /// `frame_id` is used by the outgoing kinds, which do not carry one of
    /// their own.
    pub open spec fn fixed_part(self, frame_id: u8) -> Seq<u8> {
        match self {
            FrameView::TransmitRequest { dest_addr, broadcast_radius, options, .. } => seq![
                TYPE_TRANSMIT_REQUEST,
                frame_id,
            ] + be64(dest_addr) + be16(RESERVED_NETWORK_ADDR) + seq![broadcast_radius, options],
            FrameView::RemoteAtCommand { dest_addr, options, atcmd, .. } => seq![
                TYPE_REMOTE_AT_COMMAND,
                frame_id,
            ] + be64(dest_addr) + be16(RESERVED_NETWORK_ADDR) + seq![
                options.spec_compile(),
                atcmd.0,
                atcmd.1,
            ],
            FrameView::ReceiveData { source_addr, recv_options, .. } => seq![TYPE_RECEIVE_DATA]
                + be64(source_addr) + seq![recv_options],
            FrameView::RemoteAtCommandResponse { frame_id: id, source_addr, atcmd, status, .. } => seq![
                TYPE_REMOTE_AT_RESPONSE,
                id,
            ] + be64(source_addr) + be16(RESERVED_NETWORK_ADDR) + seq![atcmd.0, atcmd.1, status],
            FrameView::TransmitStatus {
                frame_id: id,
                transmit_retry_count,
                deliver_status,
                discovery_status,
            } => seq![TYPE_TRANSMIT_STATUS, id] + be16(RESERVED_NETWORK_ADDR) + seq![
                transmit_retry_count,
                deliver_status,
                discovery_status,
            ],
        }
    }

    /// Whether the frame id is chosen when the frame is encoded: true of the
    /// outgoing kinds.
    pub open spec fn takes_frame_id(self) -> bool {
        self is TransmitRequest || self is RemoteAtCommand
    }

    /// The frame id that an incoming frame carries; 0 where it carries none.
    pub open spec fn own_frame_id(self) -> u8 {
        match self {
            FrameView::RemoteAtCommandResponse { frame_id, .. } => frame_id,
            FrameView::TransmitStatus { frame_id, .. } => frame_id,
            _ => 0,
        }
    }

    /// The frame body: everything the length field counts.
    pub open spec fn body(self, frame_id: u8) -> Seq<u8> {
        self.fixed_part(frame_id) + self.variable_part()
    }

    /// The complete wire frame.
    pub open spec fn wire(self, frame_id: u8) -> Seq<u8> {
        frame_bytes(self.body(frame_id))
    }

    /// Whether the frame is of the kind awaited.
    pub open spec fn is_awaited(self, kind: ResponseType) -> bool {
        match kind {
            ResponseType::ReceiveData => self is ReceiveData,
            ResponseType::RemoteAtResponse => self is RemoteAtCommandResponse,
            ResponseType::TransmitStatus => self is TransmitStatus,
        }
    }
}

/// A body with the header in front of it and no checksum yet.
pub open spec fn unsealed_bytes(body: Seq<u8>) -> Seq<u8> {
    seq![DELIM] + be16(body.len() as u16) + body
}

/// A body wrapped into a wire frame: delimiter, length, body, checksum.
pub open spec fn frame_bytes(body: Seq<u8>) -> Seq<u8> {
    unsealed_bytes(body).push(checksum_of(unsealed_bytes(body)))
}

/// The frame that a body stands for. The type byte selects the kind; a body
/// shorter than the fixed fields of its kind, or of an unknown kind, is a
/// framing error. Frame ids of outgoing kinds and reserved fields are
/// skipped.
pub open spec fn parse_body(body: Seq<u8>) -> Result<FrameView, Error> {
    if body.len() == 0 {
        Err(Error::FramingError)
    } else if body[0] == TYPE_TRANSMIT_REQUEST && body.len() >= 14 {
        Ok(
            FrameView::TransmitRequest {
                dest_addr: be64_value(body.subrange(2, 10)),
                broadcast_radius: body[12],
                options: body[13],
                payload: body.skip(14),
            },
        )
    } else if body[0] == TYPE_REMOTE_AT_COMMAND && body.len() >= 15 {
        Ok(
            FrameView::RemoteAtCommand {
                dest_addr: be64_value(body.subrange(2, 10)),
                options: RemoteCommandOptions::spec_parse(body[12]),
                atcmd: (body[13], body[14]),
                cmd_param: bytes_as_optional(body.skip(15)),
            },
        )
    } else if body[0] == TYPE_RECEIVE_DATA && body.len() >= 10 {
        Ok(
            FrameView::ReceiveData {
                source_addr: be64_value(body.subrange(1, 9)),
                recv_options: body[9],
                rf_data: body.skip(10),
            },
        )
    } else if body[0] == TYPE_REMOTE_AT_RESPONSE && body.len() >= 15 {
        Ok(
            FrameView::RemoteAtCommandResponse {
                frame_id: body[1],
                source_addr: be64_value(body.subrange(2, 10)),
                atcmd: (body[12], body[13]),
                status: body[14],
                command_data: bytes_as_optional(body.skip(15)),
            },
        )
    } else if body[0] == TYPE_TRANSMIT_STATUS && body.len() >= 7 {
        Ok(
            FrameView::TransmitStatus {
                frame_id: body[1],
                transmit_retry_count: body[4],
                deliver_status: body[5],
                discovery_status: body[6],
            },
        )
    } else {
        Err(Error::FramingError)
    }
}

/// Whether `bytes` starts with a usable header: three bytes, the first of
/// them the delimiter.
pub open spec fn header_ok(bytes: Seq<u8>) -> bool {
    bytes.len() >= 3 && bytes[0] == DELIM
}

/// The body length that a header declares.
pub open spec fn declared_len(bytes: Seq<u8>) -> int
    recommends
        bytes.len() >= 3,
{
    be16_value(bytes[1], bytes[2]) as int
}

/// The frame that `bytes` starts with, or the reason there is none. In
/// order: the header must be usable (`FramingError`); the declared body and
/// the checksum byte must all be there (`TransportError`, a short read); the
/// body must have at least two bytes (`FrameTooShort`); the checksum must
/// match (`ChecksumMismatch`); the body must parse (`FramingError`). Bytes
/// behind the checksum are not looked at.
pub open spec fn decode_spec(bytes: Seq<u8>) -> Result<FrameView, Error> {
    if !header_ok(bytes) {
        Err(Error::FramingError)
    } else if bytes.len() < 3 + declared_len(bytes) + 1 {
        Err(Error::TransportError)
    } else if declared_len(bytes) < 2 {
        Err(Error::FrameTooShort)
    } else if !checksum_ok(bytes.subrange(0, 3 + declared_len(bytes) + 1)) {
        Err(Error::ChecksumMismatch)
    } else {
        parse_body(bytes.subrange(3, 3 + declared_len(bytes)))
    }
}

/// What is received when a frame of one kind is awaited: the frame that the
/// bytes start with, if it is of that kind; a framing error, if it is of
/// another; the decoder's error, if there is no frame.
pub open spec fn awaited_frame(bytes: Seq<u8>, kind: ResponseType) -> Result<FrameView, Error> {
    match decode_spec(bytes) {
        Ok(frame) => if frame.is_awaited(kind) {
            Ok(frame)
        } else {
            Err(Error::FramingError)
        },
        Err(e) => Err(e),
    }
}

/// The frame id handed to the encoder does not reach the bytes of a frame
/// that carries its own or none.
pub proof fn lemma_own_frame_id(frame: FrameView, a: u8, b: u8)
    requires
        !frame.takes_frame_id(),
    ensures
        frame.wire(a) == frame.wire(b),
{
}

/// The number of fixed bytes in the body of each kind of frame.
pub proof fn lemma_fixed_part_len(frame: FrameView, frame_id: u8)
    ensures
        frame.fixed_part(frame_id).len() == match frame {
            FrameView::TransmitRequest { .. } => 14nat,
            FrameView::RemoteAtCommand { .. } => 15nat,
            FrameView::ReceiveData { .. } => 10nat,
            FrameView::RemoteAtCommandResponse { .. } => 15nat,
            FrameView::TransmitStatus { .. } => 7nat,
        },
{
    match frame {
        FrameView::TransmitRequest { dest_addr, .. } => lemma_be64_len(dest_addr),
        FrameView::RemoteAtCommand { dest_addr, .. } => lemma_be64_len(dest_addr),
        FrameView::ReceiveData { source_addr, .. } => lemma_be64_len(source_addr),
        FrameView::RemoteAtCommandResponse { source_addr, .. } => lemma_be64_len(source_addr),
        FrameView::TransmitStatus { .. } => {},
    }
}

/// The parts of an encoded frame: where its header, body and checksum lie.
pub proof fn lemma_wire_layout(frame: FrameView, frame_id: u8)
    requires
        frame.encodable(),
    ensures
        ({
            let body = frame.body(frame_id);
            let wire = frame.wire(frame_id);
            &&& 7 <= body.len() <= 65535
            &&& wire.len() == body.len() + 4
            &&& header_ok(wire)
            &&& declared_len(wire) == body.len()
            &&& wire.subrange(3, 3 + body.len() as int) == body
            &&& checksum_ok(wire)
        }),
{
    let body = frame.body(frame_id);
    lemma_fixed_part_len(frame, frame_id);
    lemma_be16_round_trip(body.len() as u16);
    lemma_sealed_frame_checks(unsealed_bytes(body));
}

/// Parsing the body of a frame gives the frame back.
pub proof fn lemma_parse_body_of_body(frame: FrameView, frame_id: u8)
    requires
        frame.representable(),
    ensures
        parse_body(frame.body(frame_id)) == Ok::<FrameView, Error>(frame),
{
    let body = frame.body(frame_id);
    lemma_fixed_part_len(frame, frame_id);
    match frame {
        FrameView::TransmitRequest { dest_addr, payload, .. } => {
            lemma_be64_round_trip(dest_addr);
            assert(body.skip(14) =~= payload);
        },
        FrameView::RemoteAtCommand { dest_addr, cmd_param, .. } => {
            lemma_be64_round_trip(dest_addr);
            assert(body.skip(15) =~= optional_bytes(cmd_param));
        },
        FrameView::ReceiveData { source_addr, rf_data, .. } => {
            lemma_be64_round_trip(source_addr);
            assert(body.skip(10) =~= rf_data);
        },
        FrameView::RemoteAtCommandResponse { source_addr, command_data, .. } => {
            lemma_be64_round_trip(source_addr);
            assert(body.skip(15) =~= optional_bytes(command_data));
        },
        FrameView::TransmitStatus { .. } => {},
    }
}

/// Decoding an encoded frame gives the frame back, whatever frame id it was
/// encoded under and whatever follows it in the buffer.
pub proof fn lemma_decode_encode(frame: FrameView, frame_id: u8, trailing: Seq<u8>)
    requires
        frame.representable(),
    ensures
        decode_spec(frame.wire(frame_id) + trailing) == Ok::<FrameView, Error>(frame),
{
    let body = frame.body(frame_id);
    let wire = frame.wire(frame_id);
    let bytes = wire + trailing;
    lemma_wire_layout(frame, frame_id);
    lemma_parse_body_of_body(frame, frame_id);
    assert(bytes.subrange(0, 3 + body.len() as int + 1) =~= wire);
    assert(bytes.subrange(3, 3 + body.len() as int) =~= body);
}

/// An encoded frame in which one byte behind the header was changed on the
/// way is rejected for its checksum.
pub proof fn lemma_corrupted_frame_rejected(frame: FrameView, frame_id: u8, i: int, v: u8)
    requires
        frame.encodable(),
        3 <= i < frame.wire(frame_id).len(),
        v != frame.wire(frame_id)[i],
    ensures
        decode_spec(frame.wire(frame_id).update(i, v)) == Err::<FrameView, Error>(
            Error::ChecksumMismatch,
        ),
{
    let wire = frame.wire(frame_id);
    let changed = wire.update(i, v);
    lemma_wire_layout(frame, frame_id);
    lemma_corruption_detected(wire, i, v);
    assert(changed.subrange(0, changed.len() as int) =~= changed);
}

} // verus!
