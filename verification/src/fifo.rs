//! FUSB302B FIFO tokens: the ordered sets written for transmission and the SOP tokens that
//! head a received frame.

use vstd::prelude::*;

use crate::packet::{PdPacket, PdPacketView, SopType, header_payload_len, lemma_header_payload_len_bounds};

verus! {

pub const FIFO_TX_ON: u8 = 0xa1;
pub const FIFO_SYNC1: u8 = 0x12;
pub const FIFO_SYNC2: u8 = 0x13;
pub const FIFO_SYNC3: u8 = 0x1b;
pub const FIFO_RESET1: u8 = 0x15;
pub const FIFO_RESET2: u8 = 0x16;
pub const FIFO_PACKSYM: u8 = 0x80;
pub const FIFO_JAM_CRC: u8 = 0xff;
pub const FIFO_EOP: u8 = 0x14;
pub const FIFO_TX_OFF: u8 = 0xfe;
pub const FIFO_SOP_MASK: u8 = 0xe0;
pub const FIFO_SOP_PREFIX: u8 = 0xe0;
/// Longest token sequence one transmission writes into the FIFO.
pub const FIFO_TX_MAX: usize = 40;

/// The four K-codes of the ordered set that starts a packet of each SOP type.
pub open spec fn sop_ordered_set(sop: SopType) -> Seq<u8> {
    match sop {
        SopType::Sop => seq![FIFO_SYNC1, FIFO_SYNC1, FIFO_SYNC1, FIFO_SYNC2],
        SopType::SopPrime => seq![FIFO_SYNC1, FIFO_SYNC1, FIFO_SYNC3, FIFO_SYNC3],
        SopType::SopDoublePrime => seq![FIFO_SYNC1, FIFO_SYNC3, FIFO_SYNC1, FIFO_SYNC3],
        SopType::SopPrimeDebug => seq![FIFO_SYNC1, FIFO_RESET2, FIFO_RESET2, FIFO_SYNC3],
        SopType::SopDoublePrimeDebug => seq![FIFO_SYNC1, FIFO_RESET2, FIFO_SYNC3, FIFO_SYNC2],
    }
}

/// Return the ordered-set tokens that start a transmitted packet of the given SOP type.
pub fn tx_sop_tokens(sop: SopType) -> (tokens: [u8; 4])
    ensures
        tokens@ == sop_ordered_set(sop),
{
    let tokens = match sop {
        SopType::Sop => [FIFO_SYNC1, FIFO_SYNC1, FIFO_SYNC1, FIFO_SYNC2],
        SopType::SopPrime => [FIFO_SYNC1, FIFO_SYNC1, FIFO_SYNC3, FIFO_SYNC3],
        SopType::SopDoublePrime => [FIFO_SYNC1, FIFO_SYNC3, FIFO_SYNC1, FIFO_SYNC3],
        SopType::SopPrimeDebug => [FIFO_SYNC1, FIFO_RESET2, FIFO_RESET2, FIFO_SYNC3],
        SopType::SopDoublePrimeDebug => [FIFO_SYNC1, FIFO_RESET2, FIFO_SYNC3, FIFO_SYNC2],
    };
    assert(tokens@ =~= sop_ordered_set(sop));
    tokens
}

/// Number of the four positions in which two ordered sets differ.
pub open spec fn differing_positions(a: Seq<u8>, b: Seq<u8>) -> nat {
    (if a[0] != b[0] {
        1nat
    } else {
        0nat
    }) + (if a[1] != b[1] {
        1nat
    } else {
        0nat
    }) + (if a[2] != b[2] {
        1nat
    } else {
        0nat
    }) + (if a[3] != b[3] {
        1nat
    } else {
        0nat
    })
}

/// The ordered sets of distinct SOP types differ in at least two of their four K-codes, so a
/// single corrupted K-code never turns one SOP type into another; and none of them can be
/// mistaken for the hard-reset ordered set.
pub proof fn lemma_sop_ordered_sets_distinct(a: SopType, b: SopType)
    ensures
        sop_ordered_set(a).len() == 4,
        a != b ==> differing_positions(sop_ordered_set(a), sop_ordered_set(b)) >= 2,
        sop_ordered_set(a) == sop_ordered_set(b) <==> a == b,
        sop_ordered_set(a) != hard_reset_tokens_spec().subrange(0, 4),
{
    if a != b {
        assert(sop_ordered_set(a) != sop_ordered_set(b)) by {
            if sop_ordered_set(a) == sop_ordered_set(b) {
                assert(differing_positions(sop_ordered_set(a), sop_ordered_set(b)) == 0);
            }
        }
    }
    assert(sop_ordered_set(a)[0] != hard_reset_tokens_spec().subrange(0, 4)[0]);
}

/// The SOP type that a received frame's first FIFO byte announces, from its top three bits.
pub open spec fn received_sop(token: u8) -> Option<SopType> {
    let high = token & FIFO_SOP_MASK;
    if high == FIFO_SOP_PREFIX {
        Some(SopType::Sop)
    } else if high == 0xc0 {
        Some(SopType::SopPrime)
    } else if high == 0xa0 {
        Some(SopType::SopDoublePrime)
    } else if high == 0x80 {
        Some(SopType::SopPrimeDebug)
    } else if high == 0x60 {
        Some(SopType::SopDoublePrimeDebug)
    } else {
        None
    }
}

/// Decode the SOP type from the token that heads a received FIFO frame.
pub fn rx_sop_type(token: u8) -> (sop: Option<SopType>)
    ensures
        sop == received_sop(token),
{
    let high = token & FIFO_SOP_MASK;
    if high == FIFO_SOP_PREFIX {
        Some(SopType::Sop)
    } else if high == 0xc0 {
        Some(SopType::SopPrime)
    } else if high == 0xa0 {
        Some(SopType::SopDoublePrime)
    } else if high == 0x80 {
        Some(SopType::SopPrimeDebug)
    } else if high == 0x60 {
        Some(SopType::SopDoublePrimeDebug)
    } else {
        None
    }
}

/// Only the top three bits of a received SOP token matter: the low five bits never change the
/// decoded SOP type, and exactly the three prefixes `000`, `001` and `010` are rejected.
pub proof fn lemma_received_sop_uses_high_bits(token: u8)
    ensures
        received_sop(token) == received_sop(token & 0xe0),
        received_sop(token) is None <==> token < 0x60,
{
    assert(((token & 0xe0) & 0xe0) == (token & 0xe0)) by (bit_vector);
    assert(((token & 0xe0) == 0xe0 || (token & 0xe0) == 0xc0 || (token & 0xe0) == 0xa0
        || (token & 0xe0) == 0x80 || (token & 0xe0) == 0x60) <==> token >= 0x60) by (bit_vector);
}

/// The token that announces the packet length: `PACKSYM` with the byte count of header and
/// payload in its low bits.
pub open spec fn packsym_token(payload_len: nat) -> u8 {
    (FIFO_PACKSYM + payload_len + 2) as u8
}

/// The complete token sequence that transmits one packet: the SOP ordered set, the packet
/// symbol, the little-endian header, the payload, then a CRC, end-of-packet, `TXOFF` and `TXON`.
pub open spec fn packet_tokens(packet: PdPacketView) -> Seq<u8> {
    sop_ordered_set(packet.sop) + seq![
        packsym_token(packet.payload.len()),
        (packet.header & 0xff) as u8,
        (packet.header >> 8u16) as u8,
    ] + packet.payload + seq![FIFO_JAM_CRC, FIFO_EOP, FIFO_TX_OFF, FIFO_TX_ON]
}

/// Serialize one packet into the FIFO tokens that transmit it.
pub fn transmit_tokens(packet: &PdPacket) -> (tokens: Vec<u8>)
    ensures
        tokens@ == packet_tokens(packet@),
        tokens@.len() == packet@.payload.len() + 11,
        tokens@.len() <= FIFO_TX_MAX,
{
    let payload = packet.payload();
    proof {
        lemma_header_payload_len_bounds(packet@.header);
    }
    let packet_len = payload.len() + 2;
    let mut tokens: Vec<u8> = Vec::new();
    let sop = tx_sop_tokens(packet.sop());
    tokens.push(sop[0]);
    tokens.push(sop[1]);
    tokens.push(sop[2]);
    tokens.push(sop[3]);
    let len_bits = packet_len as u8;
    assert((0x80u8 | len_bits) == 0x80u8 + len_bits) by (bit_vector)
        requires
            len_bits < 0x80u8,
    ;
    tokens.push(FIFO_PACKSYM | len_bits);
    let header = packet.header();
    tokens.push((header & 0xff) as u8);
    tokens.push((header >> 8u16) as u8);
    let mut i: usize = 0;
    while i < payload.len()
        invariant
            i <= payload@.len(),
            tokens@ == sop_ordered_set(packet@.sop) + seq![
                packsym_token(packet@.payload.len()),
                (packet@.header & 0xff) as u8,
                (packet@.header >> 8u16) as u8,
            ] + payload@.subrange(0, i as int),
        decreases payload@.len() - i,
    {
        tokens.push(payload[i]);
        i = i + 1;
        assert(payload@.subrange(0, i as int) =~= payload@.subrange(0, i - 1) + seq![payload@[i - 1]]);
    }
    tokens.push(FIFO_JAM_CRC);
    tokens.push(FIFO_EOP);
    tokens.push(FIFO_TX_OFF);
    tokens.push(FIFO_TX_ON);
    assert(payload@.subrange(0, payload@.len() as int) =~= payload@);
    assert(tokens@ =~= packet_tokens(packet@));
    tokens
}

/// The hard-reset ordered set followed by the `TXON` command.
pub open spec fn hard_reset_tokens_spec() -> Seq<u8> {
    seq![FIFO_RESET1, FIFO_RESET1, FIFO_RESET1, FIFO_RESET2, FIFO_TX_ON]
}

/// Return the FIFO tokens that send a USB PD hard reset.
pub fn hard_reset_tokens() -> (tokens: Vec<u8>)
    ensures
        tokens@ == hard_reset_tokens_spec(),
{
    let mut tokens: Vec<u8> = Vec::new();
    tokens.push(FIFO_RESET1);
    tokens.push(FIFO_RESET1);
    tokens.push(FIFO_RESET1);
    tokens.push(FIFO_RESET2);
    tokens.push(FIFO_TX_ON);
    assert(tokens@ =~= hard_reset_tokens_spec());
    tokens
}

/// The two header bytes a transmission writes, little-endian, give back the header when read
/// as the receiver reads them (low byte plus 256 times the high byte).
pub proof fn lemma_header_bytes_roundtrip(header: u16)
    ensures
        ((header & 0xff) as u8) as int + ((header >> 8u16) as u8) as int * 256 == header as int,
{
    assert((((header & 0xff) as u8) as u16) + (((header >> 8u16) as u8) as u16) * 256 == header)
        by (bit_vector);
}

/// The transmit tokens lay a packet out unambiguously: the ordered set, the packet symbol
/// announcing header plus payload length, the header (recoverable from its two bytes), the
/// payload, then the CRC, end-of-packet, `TXOFF` and `TXON` tokens.
pub proof fn lemma_packet_tokens_layout(packet: PdPacketView)
    requires
        packet.payload.len() <= 28,
    ensures
        ({
            let tokens = packet_tokens(packet);
            let n = packet.payload.len() as int;
            &&& tokens.len() == n + 11
            &&& tokens.subrange(0, 4) == sop_ordered_set(packet.sop)
            &&& tokens[4] == FIFO_PACKSYM + n + 2
            &&& tokens[5] as int + tokens[6] as int * 256 == packet.header as int
            &&& tokens.subrange(7, 7 + n) == packet.payload
            &&& tokens.subrange(7 + n, 11 + n) == seq![FIFO_JAM_CRC, FIFO_EOP, FIFO_TX_OFF, FIFO_TX_ON]
        }),
{
    lemma_header_bytes_roundtrip(packet.header);
    let tokens = packet_tokens(packet);
    let n = packet.payload.len() as int;
    assert(tokens.subrange(0, 4) =~= sop_ordered_set(packet.sop));
    assert(tokens.subrange(7, 7 + n) =~= packet.payload);
    assert(tokens.subrange(7 + n, 11 + n) =~= seq![FIFO_JAM_CRC, FIFO_EOP, FIFO_TX_OFF, FIFO_TX_ON]);
}

/// The SOP type of a received frame by the value of its first FIFO byte: `111xxxxx` is SOP,
/// `110xxxxx` SOP', `101xxxxx` SOP'', `100xxxxx` SOP' Debug, `011xxxxx` SOP'' Debug, and anything
/// below `0x60` is not a received SOP token.
pub proof fn lemma_received_sop_ranges(token: u8)
    ensures
        (received_sop(token) == Some(SopType::Sop)) == (token >= 0xe0),
        (received_sop(token) == Some(SopType::SopPrime)) == (0xc0 <= token < 0xe0),
        (received_sop(token) == Some(SopType::SopDoublePrime)) == (0xa0 <= token < 0xc0),
        (received_sop(token) == Some(SopType::SopPrimeDebug)) == (0x80 <= token < 0xa0),
        (received_sop(token) == Some(SopType::SopDoublePrimeDebug)) == (0x60 <= token < 0x80),
        (received_sop(token) is None) == (token < 0x60),
{
    assert(FIFO_SOP_MASK == 0xe0u8 && FIFO_SOP_PREFIX == 0xe0u8);
    assert({
        &&& ((token & 0xe0) == 0xe0) == (token >= 0xe0)
        &&& ((token & 0xe0) == 0xc0) == (0xc0 <= token && token < 0xe0)
        &&& ((token & 0xe0) == 0xa0) == (0xa0 <= token && token < 0xc0)
        &&& ((token & 0xe0) == 0x80) == (0x80 <= token && token < 0xa0)
        &&& ((token & 0xe0) == 0x60) == (0x60 <= token && token < 0x80)
    }) by (bit_vector);
}

/// The USB PD ordered sets as FIFO K-code tokens (`Sync-1` 0x12, `Sync-2` 0x13, `Sync-3` 0x1b,
/// `RST-2` 0x16): SOP is Sync-1 Sync-1 Sync-1 Sync-2, SOP' Sync-1 Sync-1 Sync-3 Sync-3, SOP''
/// Sync-1 Sync-3 Sync-1 Sync-3, SOP' Debug Sync-1 RST-2 RST-2 Sync-3 and SOP'' Debug Sync-1 RST-2
/// Sync-3 Sync-2; a hard reset is RST-1 (0x15) three times and RST-2, then `TXON` (0xa1).
pub proof fn lemma_ordered_set_tokens()
    ensures
        sop_ordered_set(SopType::Sop) == seq![0x12u8, 0x12u8, 0x12u8, 0x13u8],
        sop_ordered_set(SopType::SopPrime) == seq![0x12u8, 0x12u8, 0x1bu8, 0x1bu8],
        sop_ordered_set(SopType::SopDoublePrime) == seq![0x12u8, 0x1bu8, 0x12u8, 0x1bu8],
        sop_ordered_set(SopType::SopPrimeDebug) == seq![0x12u8, 0x16u8, 0x16u8, 0x1bu8],
        sop_ordered_set(SopType::SopDoublePrimeDebug) == seq![0x12u8, 0x16u8, 0x1bu8, 0x13u8],
        hard_reset_tokens_spec() == seq![0x15u8, 0x15u8, 0x15u8, 0x16u8, 0xa1u8],
{
}

/// The framing tokens of a transmission by value: the packet symbol is 0x80 plus the number of
/// header and payload bytes, and the packet ends with `JAM_CRC` (0xff), `EOP` (0x14), `TXOFF`
/// (0xfe) and `TXON` (0xa1).
pub proof fn lemma_packet_tokens_values(packet: PdPacketView)
    requires
        packet.payload.len() <= 28,
    ensures
        ({
            let tokens = packet_tokens(packet);
            let n = packet.payload.len() as int;
            &&& tokens[4] == 0x80 + n + 2
            &&& tokens[5] == packet.header % 256
            &&& tokens[6] == packet.header / 256
            &&& tokens.subrange(7 + n, 11 + n) == seq![0xffu8, 0x14u8, 0xfeu8, 0xa1u8]
        }),
{
    lemma_packet_tokens_layout(packet);
    let h = packet.header;
    assert(((h & 0xff) as u8) as u16 == h % 256 && ((h >> 8u16) as u8) as u16 == h / 256)
        by (bit_vector);
}

} // verus!
