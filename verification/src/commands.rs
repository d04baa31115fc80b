//! The payloads of the module command set: what is sent with each command
//! and how the answers are read.
//!
//! Every request payload has 16 bytes: the module id, big-endian, in bytes 0
//! and 1, the opcode in byte 2, and the command's own fields from byte 3 on.
//! What a command does not use stays zero.

use vstd::prelude::*;
use bytes::BytesMut;
use crate::api::RecieveRequestFrame;
use crate::buffer::{buffer_bytes, buffer_from, buffer_set};
use crate::clock::ClockReading;
use crate::endian::{be16_value, read_be16};
use crate::error::Error;
use crate::manager::ModuleCommands;
use crate::text::{decimal_u8, parse_u8};

verus! {

/// The length of every request payload.
pub const REQUEST_PAYLOAD_LEN: usize = 16;

/// The motor duration, in seconds, that is set when none is given.
pub const DEFAULT_MOTOR_SECONDS: u8 = 3;

/// The opcode position that marks a reply as an error report.
pub const ERROR_MARK: u8 = 0xff;

/// The payload of a command without fields of its own.
pub open spec fn request_payload(id: u16, opcode: u8) -> Seq<u8> {
    Seq::new(16, |i: int| 0u8).update(0, (id / 256) as u8).update(1, (id % 256) as u8).update(
        2,
        opcode,
    )
}

/// The payload that sets a module's clock: second, minute, hour, day and
/// month, each cut to a byte, then the year cut to 16 bits, big-endian.
pub open spec fn set_time_payload(id: u16, now: ClockReading) -> Seq<u8> {
    request_payload(id, ModuleCommands::SetTime.spec_value()).update(3, now.second as u8).update(
        4,
        now.minute as u8,
    ).update(5, now.hour as u8).update(6, now.day as u8).update(7, now.month as u8).update(
        8,
        ((now.year as u16) / 256) as u8,
    ).update(9, ((now.year as u16) % 256) as u8)
}

/// The payload that sets the fixed motor schedule: 9:00, 12:00, 15:00 and
/// 18:00, as four pairs of hour and minute.
pub open spec fn set_schedule_payload(id: u16) -> Seq<u8> {
    request_payload(id, ModuleCommands::SetSchedule.spec_value()).update(3, 9).update(4, 0).update(
        5,
        12,
    ).update(6, 0).update(7, 15).update(8, 0).update(9, 18).update(10, 0)
}

/// The payload that sets how long the motor runs.
pub open spec fn set_motor_time_payload(id: u16, seconds: u8) -> Seq<u8> {
    request_payload(id, ModuleCommands::SetMotorTime.spec_value()).update(3, seconds)
}

/// The characters of each string of a list.
pub open spec fn texts_of(args: Seq<String>) -> Seq<Seq<char>> {
    Seq::new(args.len(), |i: int| args[i]@)
}

/// The characters of an optional argument list.
pub open spec fn optional_texts(args: Option<&Vec<String>>) -> Option<Seq<Seq<char>>> {
    match args {
        Some(a) => Some(texts_of(a@)),
        None => None,
    }
}

/// The payload of a set command, or why there is none. Only the three set
/// commands have one. The motor duration is the fourth argument, read as a
/// decimal byte; without an argument list it is 3; a list shorter than four
/// is refused.
pub open spec fn set_payload(
    id: u16,
    cmd: ModuleCommands,
    args: Option<Seq<Seq<char>>>,
    now: ClockReading,
) -> Result<Seq<u8>, Error> {
    match cmd {
        ModuleCommands::SetTime => Ok(set_time_payload(id, now)),
        ModuleCommands::SetSchedule => Ok(set_schedule_payload(id)),
        ModuleCommands::SetMotorTime => match args {
            None => Ok(set_motor_time_payload(id, DEFAULT_MOTOR_SECONDS)),
            Some(a) => if a.len() < 4 {
                Err(Error::NoSuchModule)
            } else {
                match decimal_u8(a[3]) {
                    Some(seconds) => Ok(set_motor_time_payload(id, seconds)),
                    None => Err(Error::InvalidSubArgs),
                }
            },
        },
        _ => Err(Error::NoSuchModule),
    }
}

/// Builds the payload of a command without fields of its own.
pub fn build_request_payload(id: u16, cmd: ModuleCommands) -> (payload: BytesMut)
    ensures
        buffer_bytes(payload) == request_payload(id, cmd.spec_value()),
{
    let zeros: Vec<u8> = vec![0u8; REQUEST_PAYLOAD_LEN];
    let mut payload = buffer_from(zeros.as_slice());
    buffer_set(&mut payload, 0, (id / 256) as u8);
    buffer_set(&mut payload, 1, (id % 256) as u8);
    buffer_set(&mut payload, 2, cmd.value());
    payload
}

/// Builds the payload of a set command for the clock reading given.
pub fn build_set_payload(
    id: u16,
    cmd: ModuleCommands,
    args: Option<&Vec<String>>,
    now: ClockReading,
) -> (r: Result<BytesMut, Error>)
    ensures
        match r {
            Ok(payload) => set_payload(id, cmd, optional_texts(args), now) == Ok::<Seq<u8>, Error>(
                buffer_bytes(payload),
            ),
            Err(e) => set_payload(id, cmd, optional_texts(args), now) == Err::<Seq<u8>, Error>(e),
        },
{
    let mut payload = build_request_payload(id, cmd);
    match cmd {
        ModuleCommands::SetTime => {
            let year: u16 = #[verifier::truncate]
            (now.year as u16);
            buffer_set(&mut payload, 3, #[verifier::truncate] (now.second as u8));
            buffer_set(&mut payload, 4, #[verifier::truncate] (now.minute as u8));
            buffer_set(&mut payload, 5, #[verifier::truncate] (now.hour as u8));
            buffer_set(&mut payload, 6, #[verifier::truncate] (now.day as u8));
            buffer_set(&mut payload, 7, #[verifier::truncate] (now.month as u8));
            buffer_set(&mut payload, 8, (year / 256) as u8);
            buffer_set(&mut payload, 9, (year % 256) as u8);
            Ok(payload)
        },
        ModuleCommands::SetSchedule => {
            buffer_set(&mut payload, 3, 9);
            buffer_set(&mut payload, 4, 0);
            buffer_set(&mut payload, 5, 12);
            buffer_set(&mut payload, 6, 0);
            buffer_set(&mut payload, 7, 15);
            buffer_set(&mut payload, 8, 0);
            buffer_set(&mut payload, 9, 18);
            buffer_set(&mut payload, 10, 0);
            Ok(payload)
        },
        ModuleCommands::SetMotorTime => {
            match args {
                Some(args) => {
                    if args.len() < 4 {
                        return Err(Error::NoSuchModule);
                    }
                    match parse_u8(args[3].as_str()) {
                        Some(seconds) => {
                            buffer_set(&mut payload, 3, seconds);
                        },
                        None => {
                            return Err(Error::InvalidSubArgs);
                        },
                    }
                },
                None => {
                    buffer_set(&mut payload, 3, DEFAULT_MOTOR_SECONDS);
                },
            }
            Ok(payload)
        },
        _ => Err(Error::NoSuchModule),
    }
}

/// What is wrong with a reply payload, if anything: fewer than four bytes
/// make it invalid, and `0xFF` in byte 2 makes it the module's own error
/// report, with the error code in byte 3.
pub open spec fn reply_fault(rf_data: Seq<u8>) -> Option<Error> {
    if rf_data.len() < 4 {
        Some(Error::InvalidResponse)
    } else if rf_data[2] == ERROR_MARK {
        Some(Error::RemoteDeviceError(rf_data[3]))
    } else {
        None
    }
}

/// Validates the reply to a request and hands it back.
pub fn check_response(response: RecieveRequestFrame) -> (r: Result<RecieveRequestFrame, Error>)
    ensures
        match r {
            Ok(reply) => reply_fault(response.rf_data@) is None && reply == response,
            Err(e) => reply_fault(response.rf_data@) == Some(e),
        },
{
    if response.rf_data.len() < 4 {
        return Err(Error::InvalidResponse);
    }
    if response.rf_data[2] == ERROR_MARK {
        let code = response.rf_data[3];
        return Err(Error::RemoteDeviceError(code));
    }
    Ok(response)
}

/// A module's clock, as it reports it.
#[derive(Debug, Clone, Copy, PartialEq, Eq, Structural)]
pub struct ModuleTime {
    pub second: u8,
    pub minute: u8,
    pub hour: u8,
    pub day: u8,
    pub month: u8,
    pub year: u16,
}

/// The clock in a reply to `RequestTime`: bytes 2 to 6 are second, minute,
/// hour, day and month, bytes 7 and 8 the year, big-endian.
pub open spec fn time_in_reply(rf_data: Seq<u8>) -> Option<ModuleTime> {
    if rf_data.len() < 9 {
        None
    } else {
        Some(
            ModuleTime {
                second: rf_data[2],
                minute: rf_data[3],
                hour: rf_data[4],
                day: rf_data[5],
                month: rf_data[6],
                year: be16_value(rf_data[7], rf_data[8]),
            },
        )
    }
}

/// The 32 bits stored least significant byte first at `at`.
pub open spec fn le32_at(s: Seq<u8>, at: int) -> u32 {
    (s[at] + s[at + 1] * 0x100 + s[at + 2] * 0x1_0000 + s[at + 3] * 0x100_0000) as u32
}

/// The bit patterns of temperature and humidity in a reply to `RequestTH`:
/// two little-endian 32-bit floats in bytes 0 to 7.
pub open spec fn th_in_reply(rf_data: Seq<u8>) -> Option<(u32, u32)> {
    if rf_data.len() < 8 {
        None
    } else {
        Some((le32_at(rf_data, 0), le32_at(rf_data, 4)))
    }
}

/// The bit pattern of the distance in a reply to `RequestDist`: one
/// little-endian 32-bit float in bytes 2 to 5.
pub open spec fn dist_in_reply(rf_data: Seq<u8>) -> Option<u32> {
    if rf_data.len() < 6 {
        None
    } else {
        Some(le32_at(rf_data, 2))
    }
}

/// Reads the little-endian 32-bit value at `at`.
fn read_le32(bytes: &[u8], at: usize) -> (n: u32)
    requires
        at + 4 <= bytes@.len(),
    ensures
        n == le32_at(bytes@, at as int),
{
    let b0: u32 = bytes[at] as u32;
    let b1: u32 = bytes[at + 1] as u32;
    let b2: u32 = bytes[at + 2] as u32;
    let b3: u32 = bytes[at + 3] as u32;
    b0 + b1 * 0x100 + b2 * 0x1_0000 + b3 * 0x100_0000
}

/// What an answer reader returns when the model says `expected`: the value,
/// or `InvalidResponse` where the reply is too short to hold it.
pub open spec fn read_as<T>(expected: Option<T>, r: Result<T, Error>) -> bool {
    match r {
        Ok(v) => expected == Some(v),
        Err(e) => expected is None && e == Error::InvalidResponse,
    }
}

/// Reads the clock out of a reply to `RequestTime`.
pub fn decode_time(reply: &RecieveRequestFrame) -> (r: Result<ModuleTime, Error>)
    ensures
        read_as(time_in_reply(reply.rf_data@), r),
{
    let d = reply.rf_data.as_slice();
    if d.len() < 9 {
        return Err(Error::InvalidResponse);
    }
    Ok(
        ModuleTime {
            second: d[2],
            minute: d[3],
            hour: d[4],
            day: d[5],
            month: d[6],
            year: read_be16(d, 7),
        },
    )
}

/// Reads temperature and humidity out of a reply to `RequestTH`, as the bit
/// patterns of two 32-bit floats.
pub fn decode_th(reply: &RecieveRequestFrame) -> (r: Result<(u32, u32), Error>)
    ensures
        read_as(th_in_reply(reply.rf_data@), r),
{
    let d = reply.rf_data.as_slice();
    if d.len() < 8 {
        return Err(Error::InvalidResponse);
    }
    Ok((read_le32(d, 0), read_le32(d, 4)))
}

/// Reads the distance in centimeters out of a reply to `RequestDist`, as the
/// bit pattern of a 32-bit float.
pub fn decode_dist(reply: &RecieveRequestFrame) -> (r: Result<u32, Error>)
    ensures
        read_as(dist_in_reply(reply.rf_data@), r),
{
    let d = reply.rf_data.as_slice();
    if d.len() < 6 {
        return Err(Error::InvalidResponse);
    }
    Ok(read_le32(d, 2))
}

} // verus!
