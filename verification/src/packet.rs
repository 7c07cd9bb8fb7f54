//! Fixed-layout 91-byte command/response packets and their checksum.
//!
//! A packet travels as one HID feature report. The wire layout, in order:
//! `report`, `status`, `id`, `remaining_packets` (two bytes, little endian),
//! `protocol_type`, `data_size`, `command_class`, `command_id`, the 80-byte
//! argument buffer, `crc`, `reserved`. The checksum is the XOR of wire bytes
//! 2 through 87 inclusive.

use vstd::prelude::*;

verus! {

/// Total wire size of one packet.
pub const PACKET_LEN: usize = 91;

/// Size of the argument buffer inside a packet.
pub const ARGS_LEN: usize = 80;

/// `status` of a freshly built command packet.
pub const RAZER_CMD_NEW: u8 = 0x00;
/// `status` of a response the firmware is still working on.
pub const RAZER_CMD_BUSY: u8 = 0x01;
/// `status` of a successful response.
pub const RAZER_CMD_SUCCESSFUL: u8 = 0x02;
/// `status` of a failed response.
pub const RAZER_CMD_FAILURE: u8 = 0x03;
/// `status` of a timed-out response.
pub const RAZER_CMD_TIMEOUT: u8 = 0x04;
/// `status` of a response to a command the firmware does not support.
pub const RAZER_CMD_NOT_SUPPORTED: u8 = 0x05;

/// Session tag placed in the `id` byte of every command packet.
pub const PACKET_ID: u8 = 0x1f;

/// Mathematical model of a packet: the same fields, the argument buffer as a
/// sequence.
#[verifier::ext_equal]
pub ghost struct PacketModel {
    pub report: u8,
    pub status: u8,
    pub id: u8,
    pub remaining_packets: u16,
    pub protocol_type: u8,
    pub data_size: u8,
    pub command_class: u8,
    pub command_id: u8,
    pub args: Seq<u8>,
    pub crc: u8,
    pub reserved: u8,
}

impl PacketModel {
    /// Well-formed packets carry exactly [`ARGS_LEN`] argument bytes.
    pub open spec fn wf(self) -> bool {
        self.args.len() == ARGS_LEN
    }

    /// The packet a given argument prefix describes: header fields as in
    /// [`RazerPacket::new`], arguments `prefix` padded with zeroes.
    pub open spec fn with_args(
        command_class: u8,
        command_id: u8,
        data_size: u8,
        prefix: Seq<u8>,
    ) -> PacketModel {
        PacketModel {
            report: 0x00,
            status: RAZER_CMD_NEW,
            id: PACKET_ID,
            remaining_packets: 0x0000,
            protocol_type: 0x00,
            data_size,
            command_class,
            command_id,
            args: prefix + Seq::new((ARGS_LEN - prefix.len()) as nat, |i: int| 0u8),
            crc: 0x00,
            reserved: 0x00,
        }
    }

    /// The 91 bytes this packet occupies on the wire, with whatever checksum
    /// the `crc` field currently holds.
    pub open spec fn wire_bytes(self) -> Seq<u8> {
        seq![
            self.report,
            self.status,
            self.id,
            (self.remaining_packets & 0xff) as u8,
            ((self.remaining_packets >> 8) & 0xff) as u8,
            self.protocol_type,
            self.data_size,
            self.command_class,
            self.command_id,
        ] + self.args + seq![self.crc, self.reserved]
    }

    /// XOR of `bytes[2]` through `bytes[n - 1]`.
    pub open spec fn xor_upto(bytes: Seq<u8>, n: int) -> u8
        decreases n,
    {
        if n <= 2 {
            0u8
        } else {
            Self::xor_upto(bytes, n - 1) ^ bytes[n - 1]
        }
    }

    /// The checksum the wire format demands: XOR of wire bytes 2 through 87.
    pub open spec fn spec_crc(bytes: Seq<u8>) -> u8 {
        Self::xor_upto(bytes, 88)
    }

    /// This packet with its checksum freshly computed, as
    /// [`RazerPacket::calc_crc`] stores it.
    pub open spec fn with_crc(self) -> PacketModel {
        PacketModel { crc: Self::spec_crc(self.wire_bytes()), ..self }
    }

    /// The packet a 91-byte buffer denotes.
    pub open spec fn decoded(buf: Seq<u8>) -> PacketModel {
        PacketModel {
            report: buf[0],
            status: buf[1],
            id: buf[2],
            remaining_packets: (buf[3] as u16) | ((buf[4] as u16) << 8),
            protocol_type: buf[5],
            data_size: buf[6],
            command_class: buf[7],
            command_id: buf[8],
            args: buf.subrange(9, 89),
            crc: buf[89],
            reserved: buf[90],
        }
    }
}

/// One command or response packet.
///
/// The argument buffer is kept as a vector whose length is exactly
/// [`ARGS_LEN`] in every well-formed packet; `wf` on the view states that
/// invariant.
#[derive(Debug)]
pub struct RazerPacket {
    pub report: u8,
    pub status: u8,
    pub id: u8,
    pub remaining_packets: u16,
    pub protocol_type: u8,
    pub data_size: u8,
    pub command_class: u8,
    pub command_id: u8,
    pub args: Vec<u8>,
    pub crc: u8,
    pub reserved: u8,
}

impl View for RazerPacket {
    type V = PacketModel;

    open spec fn view(&self) -> PacketModel {
        PacketModel {
            report: self.report,
            status: self.status,
            id: self.id,
            remaining_packets: self.remaining_packets,
            protocol_type: self.protocol_type,
            data_size: self.data_size,
            command_class: self.command_class,
            command_id: self.command_id,
            args: self.args@,
            crc: self.crc,
            reserved: self.reserved,
        }
    }
}

impl RazerPacket {
    /// A fresh command packet: all arguments zero, checksum not yet computed.
    pub fn new(command_class: u8, command_id: u8, data_size: u8) -> (r: RazerPacket)
        ensures
            r@ == PacketModel::with_args(
                command_class,
                command_id,
                data_size,
                Seq::<u8>::empty(),
            ),
            r@.wf(),
    {
        Self::with_args(command_class, command_id, data_size, Vec::new())
    }

    /// A command packet whose first argument bytes are `prefix` and whose
    /// remaining argument bytes are zero.
    pub fn with_args(command_class: u8, command_id: u8, data_size: u8, prefix: Vec<u8>) -> (r:
        RazerPacket)
        requires
            prefix@.len() <= ARGS_LEN,
        ensures
            r@ == PacketModel::with_args(command_class, command_id, data_size, prefix@),
            r@.wf(),
    {
        let ghost given = prefix@;
        let mut args = prefix;
        while args.len() < ARGS_LEN
            invariant
                given.len() <= args@.len() <= ARGS_LEN,
                args@ =~= given + Seq::new((args@.len() - given.len()) as nat, |i: int| 0u8),
            decreases ARGS_LEN - args@.len(),
        {
            args.push(0u8);
        }
        proof {
            assert(args@ =~= given + Seq::new((ARGS_LEN - given.len()) as nat, |i: int| 0u8));
        }
        RazerPacket {
            report: 0x00,
            status: RAZER_CMD_NEW,
            id: PACKET_ID,
            remaining_packets: 0x0000,
            protocol_type: 0x00,
            data_size,
            command_class,
            command_id,
            args,
            crc: 0x00,
            reserved: 0x00,
        }
    }

    /// Serialize without touching the stored checksum.
    pub fn encode(&self) -> (buf: Vec<u8>)
        requires
            self@.wf(),
        ensures
            buf@ == self@.wire_bytes(),
            buf@.len() == PACKET_LEN,
    {
        let mut buf: Vec<u8> = Vec::new();
        buf.push(self.report);
        buf.push(self.status);
        buf.push(self.id);
        buf.push((self.remaining_packets & 0xff) as u8);
        buf.push(((self.remaining_packets >> 8) & 0xff) as u8);
        buf.push(self.protocol_type);
        buf.push(self.data_size);
        buf.push(self.command_class);
        buf.push(self.command_id);
        let mut i: usize = 0;
        while i < ARGS_LEN
            invariant
                self@.wf(),
                i <= ARGS_LEN,
                buf@.len() == 9 + i,
                buf@ =~= self@.wire_bytes().subrange(0, 9 + i as int),
            decreases ARGS_LEN - i,
        {
            buf.push(self.args[i]);
            i = i + 1;
        }
        buf.push(self.crc);
        buf.push(self.reserved);
        proof {
            assert(buf@ =~= self@.wire_bytes());
        }
        buf
    }

    /// Recompute the checksum over this packet's wire bytes, store it, and
    /// return the ready-to-send buffer (checksum included at byte 89).
    pub fn calc_crc(&mut self) -> (buf: Vec<u8>)
        requires
            old(self)@.wf(),
        ensures
            final(self)@ == (PacketModel {
                crc: PacketModel::spec_crc(old(self)@.wire_bytes()),
                ..old(self)@
            }),
            final(self)@.wf(),
            buf@ == final(self)@.wire_bytes(),
            buf@.len() == PACKET_LEN,
            buf@[89] == PacketModel::spec_crc(buf@),
    {
        let mut buf = self.encode();
        let mut res: u8 = 0x00;
        let mut i: usize = 2;
        while i < 88
            invariant
                buf@.len() == PACKET_LEN,
                2 <= i <= 88,
                res == PacketModel::xor_upto(buf@, i as int),
            decreases 88 - i,
        {
            res = res ^ buf[i];
            i = i + 1;
        }
        self.crc = res;
        buf[89] = res;
        proof {
            assert(buf@ =~= self@.wire_bytes());
            lemma_xor_window_ignores_tail(old(self)@.wire_bytes(), buf@);
        }
        buf
    }

    /// Parse a received buffer. Exactly the buffers of a full report's length
    /// parse; every byte is preserved, so the parsed packet puts the very
    /// same bytes back on the wire.
    pub fn decode(buf: &Vec<u8>) -> (r: Option<RazerPacket>)
        ensures
            r is Some <==> buf@.len() == PACKET_LEN,
            r matches Some(p) ==> {
                &&& p@.wf()
                &&& p@ == PacketModel::decoded(buf@)
                &&& p@.wire_bytes() == buf@
            },
    {
        if buf.len() != PACKET_LEN {
            return None;
        }
        let mut args: Vec<u8> = Vec::new();
        let mut i: usize = 9;
        while i < 89
            invariant
                buf@.len() == PACKET_LEN,
                9 <= i <= 89,
                args@ =~= buf@.subrange(9, i as int),
            decreases 89 - i,
        {
            args.push(buf[i]);
            i = i + 1;
        }
        let p = RazerPacket {
            report: buf[0],
            status: buf[1],
            id: buf[2],
            remaining_packets: (buf[3] as u16) | ((buf[4] as u16) << 8),
            protocol_type: buf[5],
            data_size: buf[6],
            command_class: buf[7],
            command_id: buf[8],
            args,
            crc: buf[89],
            reserved: buf[90],
        };
        proof {
            let b3: u8 = buf@[3];
            let b4: u8 = buf@[4];
            let rp: u16 = p.remaining_packets;
            assert((rp & 0xff) as u8 == b3 && ((rp >> 8) & 0xff) as u8 == b4) by (bit_vector)
                requires
                    rp == ((b3 as u16) | ((b4 as u16) << 8)),
            ;
            assert(p@.args =~= PacketModel::decoded(buf@).args);
            assert(p@.wire_bytes() =~= buf@);
        }
        Some(p)
    }
}

/// The models of a sequence of packets, for contracts over packet plans.
pub open spec fn models(s: Seq<RazerPacket>) -> Seq<PacketModel> {
    s.map_values(|p: RazerPacket| p@)
}

/// The checksum window stops at wire byte 87, so two buffers that agree on
/// bytes 2 through 87 have the same checksum; in particular storing a fresh
/// checksum at byte 89 does not change what the checksum is.
pub proof fn lemma_xor_window_ignores_tail(a: Seq<u8>, b: Seq<u8>)
    requires
        forall|i: int| 2 <= i < 88 ==> a[i] == b[i],
    ensures
        PacketModel::spec_crc(a) == PacketModel::spec_crc(b),
{
    lemma_xor_upto_agree(a, b, 88);
}

proof fn lemma_xor_upto_agree(a: Seq<u8>, b: Seq<u8>, n: int)
    requires
        forall|i: int| 2 <= i < 88 ==> a[i] == b[i],
        n <= 88,
    ensures
        PacketModel::xor_upto(a, n) == PacketModel::xor_upto(b, n),
    decreases n,
{
    if n > 2 {
        lemma_xor_upto_agree(a, b, n - 1);
    }
}

/// Round trip: parsing the wire image of a well-formed packet yields that
/// packet back, every field included. Together with the contract of
/// [`RazerPacket::calc_crc`] — which pins the stored checksum to the XOR of
/// wire bytes 2 through 87 — this says that encoding and then decoding
/// preserves all fields, the checksum and reserved byte being whatever the
/// encoder last stored.
pub proof fn lemma_packet_round_trip(p: PacketModel)
    requires
        p.wf(),
    ensures
        PacketModel::decoded(p.wire_bytes()) == p,
{
    let q = PacketModel::decoded(p.wire_bytes());
    let rp: u16 = p.remaining_packets;
    let rq: u16 = q.remaining_packets;
    assert(rq == rp) by (bit_vector)
        requires
            rq == ((((rp & 0xff) as u8) as u16) | ((((rp >> 8) & 0xff) as u8) as u16) << 8),
    ;
    assert(q.args =~= p.args);
    assert(q == p);
}

} // verus!
