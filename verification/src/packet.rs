//! The protocol-neutral USB PD physical packet carried by the FUSB302B FIFOs.

use vstd::prelude::*;

use crate::error::PacketError;
use crate::MAX_PD_PAYLOAD_BYTES;

verus! {

/// Start-of-packet sequence associated with a USB PD packet.
#[derive(Clone, Copy, Debug, PartialEq, Eq, Structural)]
pub enum SopType {
    /// SOP.
    Sop,
    /// SOP'.
    SopPrime,
    /// SOP''.
    SopDoublePrime,
    /// SOP' Debug.
    SopPrimeDebug,
    /// SOP'' Debug.
    SopDoublePrimeDebug,
}

/// The payload length, in bytes, that a USB PD header announces: its 3-bit data-object count
/// (bits 14:12) times four bytes per data object.
pub open spec fn header_payload_len(header: u16) -> nat {
    (((header >> 12u16) & 7u16) * 4) as nat
}

/// A header never announces more payload than the FUSB302B FIFO transport carries, and always
/// a whole number of 32-bit data objects.
pub proof fn lemma_header_payload_len_bounds(header: u16)
    ensures
        header_payload_len(header) <= MAX_PD_PAYLOAD_BYTES,
        header_payload_len(header) % 4 == 0,
{
    assert(((header >> 12u16) & 7u16) <= 7) by (bit_vector);
}

/// The announced payload is four bytes for each data object counted in header bits 14:12
/// (the value `(header / 4096) % 8`); the other header bits do not change it.
pub proof fn lemma_header_payload_len_counts_objects(header: u16)
    ensures
        header_payload_len(header) == 4 * ((header / 4096) % 8),
{
    assert(((header >> 12u16) & 7u16) == (header / 4096) % 8) by (bit_vector);
}

/// The abstract content of a packet: its SOP type, raw header and payload bytes.
pub struct PdPacketView {
    /// Start-of-packet sequence.
    pub sop: SopType,
    /// Raw USB PD header.
    pub header: u16,
    /// Payload bytes, without the 2-byte header or CRC.
    pub payload: Seq<u8>,
}

/// A bounded, allocation-free USB PD physical packet.
#[derive(Clone, Copy, Debug, PartialEq, Eq)]
pub struct PdPacket {
    sop: SopType,
    header: u16,
    payload: [u8; MAX_PD_PAYLOAD_BYTES],
    payload_len: u8,
}

impl View for PdPacket {
    type V = PdPacketView;

    closed spec fn view(&self) -> PdPacketView {
        PdPacketView {
            sop: self.sop,
            header: self.header,
            payload: self.payload@.subrange(0, self.payload_len as int),
        }
    }
}

impl PdPacket {
    /// The stored length always matches the header, and unused storage is zero, so two
    /// packets with the same content are the same value.
    #[verifier::type_invariant]
    closed spec fn well_formed(self) -> bool {
        &&& self.payload_len as nat == header_payload_len(self.header)
        &&& forall|i: int| self.payload_len <= i < MAX_PD_PAYLOAD_BYTES ==> self.payload@[i] == 0
    }

    /// Construct a packet after checking that the PD header object count matches `payload`.
    pub fn new(sop: SopType, header: u16, payload: &[u8]) -> (packet: Result<Self, PacketError>)
        ensures
            payload@.len() > MAX_PD_PAYLOAD_BYTES ==> packet == Err::<Self, PacketError>(
                PacketError::PayloadTooLong { actual: payload@.len() as usize },
            ),
            payload@.len() <= MAX_PD_PAYLOAD_BYTES && payload@.len() != header_payload_len(header)
                ==> packet == Err::<Self, PacketError>(
                PacketError::PayloadLengthMismatch {
                    expected: header_payload_len(header) as usize,
                    actual: payload@.len() as usize,
                },
            ),
            packet is Ok <==> payload@.len() == header_payload_len(header),
            packet matches Ok(p) ==> p@ == (PdPacketView { sop, header, payload: payload@ }),
    {
        proof {
            lemma_header_payload_len_bounds(header);
        }
        if payload.len() > MAX_PD_PAYLOAD_BYTES {
            return Err(PacketError::PayloadTooLong { actual: payload.len() });
        }
        let expected = Self::payload_len_from_header(header);
        if payload.len() != expected {
            return Err(PacketError::PayloadLengthMismatch { expected, actual: payload.len() });
        }
        let mut storage = [0u8; 28];
        let mut i: usize = 0;
        while i < payload.len()
            invariant
                i <= payload@.len() <= MAX_PD_PAYLOAD_BYTES,
                storage@.len() == MAX_PD_PAYLOAD_BYTES,
                forall|k: int| 0 <= k < i ==> storage@[k] == payload@[k],
                forall|k: int| i <= k < MAX_PD_PAYLOAD_BYTES ==> storage@[k] == 0,
            decreases payload@.len() - i,
        {
            storage[i] = payload[i];
            i = i + 1;
        }
        let packet = PdPacket { sop, header, payload: storage, payload_len: payload.len() as u8 };
        assert(packet@.payload =~= payload@);
        Ok(packet)
    }

    /// Build the packet that a received FIFO frame carries: the header announces how many of
    /// the leading `payload` bytes belong to it.
    pub fn from_fifo(sop: SopType, header: u16, payload: [u8; 28]) -> (packet: Self)
        ensures
            packet@ == (PdPacketView {
                sop,
                header,
                payload: payload@.subrange(0, header_payload_len(header) as int),
            }),
    {
        let len = Self::payload_len_from_header(header);
        let mut storage = [0u8; 28];
        let mut i: usize = 0;
        while i < len
            invariant
                i <= len <= MAX_PD_PAYLOAD_BYTES,
                len == header_payload_len(header),
                storage@.len() == MAX_PD_PAYLOAD_BYTES,
                payload@.len() == MAX_PD_PAYLOAD_BYTES,
                forall|k: int| 0 <= k < i ==> storage@[k] == payload@[k],
                forall|k: int| i <= k < MAX_PD_PAYLOAD_BYTES ==> storage@[k] == 0,
            decreases len - i,
        {
            storage[i] = payload[i];
            i = i + 1;
        }
        let packet = PdPacket { sop, header, payload: storage, payload_len: len as u8 };
        assert(packet@.payload =~= payload@.subrange(0, len as int));
        packet
    }

    /// Return the SOP type.
    pub fn sop(self) -> (sop: SopType)
        ensures
            sop == self@.sop,
    {
        self.sop
    }

    /// Return the raw USB PD header in host-endian representation.
    pub fn header(self) -> (header: u16)
        ensures
            header == self@.header,
    {
        self.header
    }

    /// Return the packet payload, without the 2-byte header or CRC.
    pub fn payload(&self) -> (payload: &[u8])
        ensures
            payload@ == self@.payload,
            payload@.len() == header_payload_len(self@.header),
    {
        proof {
            use_type_invariant(self);
            lemma_header_payload_len_bounds(self.header);
        }
        let all = self.payload.as_slice();
        assert(all@ == self.payload@);
        vstd::slice::slice_subrange(all, 0, self.payload_len as usize)
    }

    /// Return the payload length implied by the header's data-object count.
    pub fn payload_len_from_header(header: u16) -> (len: usize)
        ensures
            len == header_payload_len(header),
            len <= MAX_PD_PAYLOAD_BYTES,
    {
        proof {
            lemma_header_payload_len_bounds(header);
        }
        (((header >> 12u16) & 7u16) as usize) * 4
    }
}

} // verus!
