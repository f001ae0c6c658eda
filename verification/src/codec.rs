//! The framed protocol between device and host. Every frame is a command
//! id, the CRC-8 of the payload, and the payload, whose length the id
//! fixes.

use crate::crc::{calc_crc8, spec_crc8};
use crate::cycling::CycleData;
use crate::endian::{
    le_bytes_u16, le_bytes_u32, le_u16_at, le_u32_at, lemma_le_u16_round_trip,
    lemma_le_u32_round_trip, read_le_u16, read_le_u32,
};
use crate::host::Error;
use crate::offline::BulkCycleData;
use crate::payload::{to_slice_u32, to_slice_u32_u16};
use vstd::prelude::*;
use vstd::slice::slice_subrange;

verus! {

/// Length of the header: command id and checksum.
pub const HEADER_LEN: usize = 2;

/// Id of the command that starts a session.
pub const CMD_START_SESSION: u8 = 1;

/// Id of the command that stops a session.
pub const CMD_STOP_SESSION: u8 = 2;

/// Id of the handshake.
pub const CMD_HANDSHAKE: u8 = 3;

/// Id of the frame that carries one cycle.
pub const CMD_LIVE_DATA: u8 = 1;

/// Id of the frame that carries a whole session.
pub const CMD_BULK_DATA: u8 = 2;

/// Length of the longest frame that the host sends.
pub const RX_BUF_SIZE: usize = 3;

/// Room for the payload of a frame that the device sends.
pub const TX_PAYLOAD_CAPACITY: usize = 10;

/// The frame with command id `id` and payload `payload`.
pub open spec fn frame(id: u8, payload: Seq<u8>) -> Seq<u8> {
    seq![id, spec_crc8(payload)] + payload
}

/// The payload of `raw`: what follows the header, nothing where `raw` has
/// no whole header.
pub open spec fn spec_command_data(raw: Seq<u8>) -> Seq<u8> {
    if raw.len() < HEADER_LEN {
        Seq::empty()
    } else {
        raw.skip(HEADER_LEN as int)
    }
}

/// Whether `raw` has a header whose checksum byte is the CRC-8 of the
/// payload.
pub open spec fn spec_verify_crc8(raw: Seq<u8>) -> bool {
    raw.len() >= HEADER_LEN && raw[1] == spec_crc8(spec_command_data(raw))
}

/// A command from the host.
#[derive(Clone, Copy, Debug, PartialEq, Eq, Structural)]
pub enum RxCommand {
    StartSession,
    StopSession,
    Handshake { session_active: bool },
}

impl RxCommand {
    /// Length of the whole frame of the command with id `raw`; none for an
    /// id that names no command.
    pub open spec fn spec_expected_len(raw: u8) -> Option<usize> {
        if raw == CMD_START_SESSION || raw == CMD_STOP_SESSION {
            Some(2usize)
        } else if raw == CMD_HANDSHAKE {
            Some(3usize)
        } else {
            None
        }
    }

    /// The command that the frame `raw` carries. A frame is valid if and
    /// only if its id names a command, its length is the one that the id
    /// fixes, and its checksum matches; every other input carries none.
    pub open spec fn spec_deserialize(raw: Seq<u8>) -> Option<RxCommand> {
        if !spec_verify_crc8(raw) || Self::spec_expected_len(raw[0]) != Some(raw.len() as usize) {
            None
        } else if raw[0] == CMD_START_SESSION {
            Some(RxCommand::StartSession)
        } else if raw[0] == CMD_STOP_SESSION {
            Some(RxCommand::StopSession)
        } else {
            Some(RxCommand::Handshake { session_active: raw[2] & 1 != 0 })
        }
    }

    /// The command id.
    pub open spec fn spec_id(self) -> u8 {
        match self {
            RxCommand::StartSession => CMD_START_SESSION,
            RxCommand::StopSession => CMD_STOP_SESSION,
            RxCommand::Handshake { .. } => CMD_HANDSHAKE,
        }
    }

    /// The payload: empty but for the handshake, whose one byte holds the
    /// session-active flag in bit 0.
    pub open spec fn spec_payload(self) -> Seq<u8> {
        match self {
            RxCommand::StartSession => Seq::empty(),
            RxCommand::StopSession => Seq::empty(),
            RxCommand::Handshake { session_active } => seq![
                if session_active {
                    1u8
                } else {
                    0u8
                },
            ],
        }
    }

    /// The frame of the command.
    pub open spec fn spec_serialize(self) -> Seq<u8> {
        frame(self.spec_id(), self.spec_payload())
    }

    /// Length of the whole frame of the command with id `raw`.
    pub fn expected_len(raw: u8) -> (len: Option<usize>)
        ensures
            len == Self::spec_expected_len(raw),
    {
        if raw == CMD_START_SESSION || raw == CMD_STOP_SESSION {
            Some(HEADER_LEN)
        } else if raw == CMD_HANDSHAKE {
            Some(HEADER_LEN + 1)
        } else {
            None
        }
    }

    /// Decodes a frame.
    pub fn deserialize(raw: &[u8]) -> (cmd: Option<Self>)
        ensures
            cmd == Self::spec_deserialize(raw@),
    {
        if raw.len() < HEADER_LEN || !Self::verify_crc8(raw) {
            return None;
        }
        match Self::expected_len(raw[0]) {
            Some(expected_len) => {
                let data = Self::command_data(raw);
                if raw.len() != expected_len {
                    return None;
                }
                if raw[0] == CMD_START_SESSION {
                    Some(Self::StartSession)
                } else if raw[0] == CMD_STOP_SESSION {
                    Some(Self::StopSession)
                } else {
                    let flags = data[0];
                    let session_active = (flags & 1) != 0;
                    Some(Self::Handshake { session_active })
                }
            },
            None => None,
        }
    }

    /// Whether the checksum byte of `raw` matches its payload.
    pub fn verify_crc8(raw: &[u8]) -> (ok: bool)
        ensures
            ok == spec_verify_crc8(raw@),
    {
        if raw.len() < HEADER_LEN {
            return false;
        }
        let expected = raw[1];
        expected == calc_crc8(Self::command_data(raw))
    }

    /// The payload of `raw`.
    pub fn command_data<'a>(raw: &'a [u8]) -> (data: &'a [u8])
        ensures
            data@ == spec_command_data(raw@),
    {
        if raw.len() < HEADER_LEN {
            slice_subrange(raw, 0, 0)
        } else {
            slice_subrange(raw, HEADER_LEN, raw.len())
        }
    }

    /// Encodes the command as the host sends it.
    pub fn serialize(&self) -> (raw: Vec<u8>)
        ensures
            raw@ == self.spec_serialize(),
    {
        let mut payload: Vec<u8> = Vec::new();
        let id = match self {
            Self::StartSession => CMD_START_SESSION,
            Self::StopSession => CMD_STOP_SESSION,
            Self::Handshake { session_active } => {
                payload.push(
                    if *session_active {
                        1
                    } else {
                        0
                    },
                );
                CMD_HANDSHAKE
            },
        };
        assert(payload@ =~= self.spec_payload());
        build_frame(id, &payload)
    }
}

/// Puts the header before `payload`.
fn build_frame(id: u8, payload: &Vec<u8>) -> (raw: Vec<u8>)
    ensures
        raw@ == frame(id, payload@),
{
    let mut raw: Vec<u8> = Vec::new();
    raw.push(id);
    raw.push(calc_crc8(payload.as_slice()));
    raw.extend_from_slice(payload.as_slice());
    assert(raw@ =~= frame(id, payload@));
    raw
}

/// A command to the host.
#[derive(Clone, Copy, Debug, PartialEq, Eq, Structural)]
pub enum TxCommand {
    LiveData(CycleData),
    BulkData(BulkCycleData),
}

impl TxCommand {
    /// Length of the whole frame of the command with id `raw`; none for an
    /// id that names no command.
    pub open spec fn spec_expected_len(raw: u8) -> Option<usize> {
        if raw == CMD_LIVE_DATA {
            Some(6usize)
        } else if raw == CMD_BULK_DATA {
            Some(8usize)
        } else {
            None
        }
    }

    /// The command id.
    pub open spec fn spec_id(self) -> u8 {
        match self {
            TxCommand::LiveData(_) => CMD_LIVE_DATA,
            TxCommand::BulkData(_) => CMD_BULK_DATA,
        }
    }

    /// The payload: the fields of the record in order, each little-endian
    /// at its full width.
    pub open spec fn spec_payload(self) -> Seq<u8> {
        match self {
            TxCommand::LiveData(data) => le_bytes_u32(data.millis),
            TxCommand::BulkData(data) => le_bytes_u32(data.millis) + le_bytes_u16(
                data.cycle_count,
            ),
        }
    }

    /// The frame of the command.
    pub open spec fn spec_serialize(self) -> Seq<u8> {
        frame(self.spec_id(), self.spec_payload())
    }

    /// The command that the frame `raw` carries, under the same validity
    /// rule as for frames from the host.
    pub open spec fn spec_deserialize(raw: Seq<u8>) -> Option<TxCommand> {
        if !spec_verify_crc8(raw) || Self::spec_expected_len(raw[0]) != Some(raw.len() as usize) {
            None
        } else if raw[0] == CMD_LIVE_DATA {
            Some(TxCommand::LiveData(CycleData { millis: le_u32_at(raw, 2) }))
        } else {
            Some(
                TxCommand::BulkData(
                    BulkCycleData { millis: le_u32_at(raw, 2), cycle_count: le_u16_at(raw, 6) },
                ),
            )
        }
    }

    /// Encodes the command as a frame.
    pub fn serialize(self) -> (raw: Result<Vec<u8>, Error>)
        ensures
            raw matches Ok(bytes) && bytes@ == self.spec_serialize(),
    {
        let mut payload: Vec<u8> = vec![0u8; TX_PAYLOAD_CAPACITY];
        let (id, used) = match self {
            Self::LiveData(data) => (CMD_LIVE_DATA, to_slice_u32(data.millis, &mut payload)),
            Self::BulkData(data) => (
                CMD_BULK_DATA,
                to_slice_u32_u16(data.millis, data.cycle_count, &mut payload),
            ),
        };
        match used {
            Ok(data_len) => {
                payload.truncate(data_len);
                assert(payload@ =~= self.spec_payload());
                Ok(build_frame(id, &payload))
            },
            Err(e) => Err(Error::from(e)),
        }
    }

    /// Decodes a frame as the host does.
    pub fn deserialize(raw: &[u8]) -> (cmd: Option<Self>)
        ensures
            cmd == Self::spec_deserialize(raw@),
    {
        if raw.len() < HEADER_LEN || !RxCommand::verify_crc8(raw) {
            return None;
        }
        if raw[0] == CMD_LIVE_DATA && raw.len() == 6 {
            Some(Self::LiveData(CycleData { millis: read_le_u32(raw, 2) }))
        } else if raw[0] == CMD_BULK_DATA && raw.len() == 8 {
            Some(
                Self::BulkData(
                    BulkCycleData { millis: read_le_u32(raw, 2), cycle_count: read_le_u16(raw, 6) },
                ),
            )
        } else {
            None
        }
    }
}

/// Every command from the host comes back from its own frame.
pub proof fn lemma_rx_round_trip(cmd: RxCommand)
    ensures
        RxCommand::spec_deserialize(cmd.spec_serialize()) == Some(cmd),
{
    let raw = cmd.spec_serialize();
    assert(spec_command_data(raw) =~= cmd.spec_payload());
    assert(1u8 & 1 != 0 && 0u8 & 1 == 0) by (bit_vector);
}

/// Every command to the host comes back from its own frame.
pub proof fn lemma_tx_round_trip(cmd: TxCommand)
    ensures
        TxCommand::spec_deserialize(cmd.spec_serialize()) == Some(cmd),
{
    let raw = cmd.spec_serialize();
    assert(spec_command_data(raw) =~= cmd.spec_payload());
    match cmd {
        TxCommand::LiveData(data) => {
            lemma_le_u32_round_trip(data.millis);
            let bytes = le_bytes_u32(data.millis);
            assert(raw[2] == bytes[0] && raw[3] == bytes[1] && raw[4] == bytes[2] && raw[5]
                == bytes[3]);
        },
        TxCommand::BulkData(data) => {
            lemma_le_u32_round_trip(data.millis);
            lemma_le_u16_round_trip(data.cycle_count);
            let bytes = le_bytes_u32(data.millis);
            let half = le_bytes_u16(data.cycle_count);
            assert(raw[2] == bytes[0] && raw[3] == bytes[1] && raw[4] == bytes[2] && raw[5]
                == bytes[3]);
            assert(raw[6] == half[0] && raw[7] == half[1]);
        },
    }
}

/// A frame is taken at one length only: cut short or padded, a valid frame
/// carries no command.
pub proof fn lemma_frame_length_is_exact(raw: Seq<u8>)
    ensures
        RxCommand::spec_deserialize(raw) is Some ==> RxCommand::spec_expected_len(raw[0]) == Some(
            raw.len() as usize,
        ),
        TxCommand::spec_deserialize(raw) is Some ==> TxCommand::spec_expected_len(raw[0]) == Some(
            raw.len() as usize,
        ),
{
}

} // verus!
