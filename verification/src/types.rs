//! Public configuration, status and measurement types.

use vstd::prelude::*;

use crate::registers::{CcPin, DataRole, PdRevision, PowerRole};

verus! {

/// Bit mask selecting received USB PD packet variants.
///
/// Standard SOP packets are always accepted by the FUSB302B receiver. The remaining variants
/// control the four explicit enable bits in `CONTROL1`.
#[derive(Clone, Copy, Debug, Default, PartialEq, Eq, Structural)]
pub struct ReceiveSopMask(u8);

impl View for ReceiveSopMask {
    type V = u8;

    closed spec fn view(&self) -> u8 {
        self.0
    }
}

impl ReceiveSopMask {
    /// Do not enable additional cable-marked SOP variants.
    #[allow(non_snake_case)]
    pub fn NONE() -> (mask: Self)
        ensures
            mask@ == 0,
    {
        Self(0)
    }

    /// Represent standard SOP packets, which are always accepted by the hardware.
    #[allow(non_snake_case)]
    pub fn SOP() -> (mask: Self)
        ensures
            mask@ == 0x01,
    {
        Self(0x01)
    }

    /// Accept SOP' packets.
    #[allow(non_snake_case)]
    pub fn SOP_PRIME() -> (mask: Self)
        ensures
            mask@ == 0x02,
    {
        Self(0x02)
    }

    /// Accept SOP'' packets.
    #[allow(non_snake_case)]
    pub fn SOP_DOUBLE_PRIME() -> (mask: Self)
        ensures
            mask@ == 0x04,
    {
        Self(0x04)
    }

    /// Accept SOP' Debug packets.
    #[allow(non_snake_case)]
    pub fn SOP_PRIME_DEBUG() -> (mask: Self)
        ensures
            mask@ == 0x08,
    {
        Self(0x08)
    }

    /// Accept SOP'' Debug packets.
    #[allow(non_snake_case)]
    pub fn SOP_DOUBLE_PRIME_DEBUG() -> (mask: Self)
        ensures
            mask@ == 0x10,
    {
        Self(0x10)
    }

    /// Return the raw selection bits.
    pub fn bits(self) -> (bits: u8)
        ensures
            bits == self@,
    {
        self.0
    }
}

impl core::ops::BitOr for ReceiveSopMask {
    type Output = Self;

    fn bitor(self, rhs: Self) -> (union: Self)
        ensures
            union@ == self@ | rhs@,
    {
        ReceiveSopMask(self.0 | rhs.0)
    }
}

impl vstd::std_specs::ops::BitOrSpecImpl for ReceiveSopMask {
    open spec fn obeys_bitor_spec() -> bool {
        true
    }

    open spec fn bitor_req(self, rhs: ReceiveSopMask) -> bool {
        true
    }

    closed spec fn bitor_spec(self, rhs: ReceiveSopMask) -> ReceiveSopMask {
        ReceiveSopMask(self.0 | rhs.0)
    }
}

impl core::ops::BitOrAssign for ReceiveSopMask {
    fn bitor_assign(&mut self, rhs: Self)
        ensures
            final(self)@ == old(self)@ | rhs@,
    {
        self.0 = self.0 | rhs.0;
    }
}

/// Union of receive selections is commutative, associative and idempotent, and `NONE` is its
/// identity, so the order in which variants are combined never matters.
pub proof fn lemma_receive_sop_union_laws(a: ReceiveSopMask, b: ReceiveSopMask, c: ReceiveSopMask)
    ensures
        (a@ | b@) == (b@ | a@),
        ((a@ | b@) | c@) == (a@ | (b@ | c@)),
        (a@ | a@) == a@,
        (a@ | 0u8) == a@,
{
    let x = a@;
    let y = b@;
    let z = c@;
    assert((x | y) == (y | x)) by (bit_vector);
    assert(((x | y) | z) == (x | (y | z))) by (bit_vector);
    assert((x | x) == x) by (bit_vector);
    assert((x | 0u8) == x) by (bit_vector);
}

/// Values written to the FUSB302B interrupt-mask registers.
///
/// A set bit masks its corresponding hardware interrupt source. The FUSB302B
/// defines the meaning of each bit in its register reference; this type keeps
/// the three mask registers configured as one atomic PHY setting.
#[derive(Clone, Copy, Debug, PartialEq, Eq, Structural)]
pub struct InterruptMasks {
    primary: u8,
    extended_a: u8,
    extended_b: u8,
}

impl View for InterruptMasks {
    /// The values for `MASK`, `MASKA` and `MASKB`, in that order.
    type V = (u8, u8, u8);

    closed spec fn view(&self) -> (u8, u8, u8) {
        (self.primary, self.extended_a, self.extended_b)
    }
}

impl InterruptMasks {
    /// Construct the values for `MASK`, `MASKA`, and `MASKB`, respectively.
    pub fn new(primary: u8, extended_a: u8, extended_b: u8) -> (masks: Self)
        ensures
            masks@ == (primary, extended_a, extended_b),
    {
        Self { primary, extended_a, extended_b }
    }

    /// Mask every interrupt except the autonomous Type-C toggle completion signal.
    ///
    /// This is the documented mask set for polling a toggle result. It keeps unrelated
    /// interrupt sources from asserting the shared interrupt line while preserving the
    /// FUSB302B `TOGDONE` latch.
    pub fn toggle_detection() -> (masks: Self)
        ensures
            masks@ == (0xffu8, 0xbfu8, 0x01u8),
            (masks@.1 & INTERRUPTA_TOGDONE) == 0,
    {
        assert((0xbfu8 & 0x40u8) == 0u8) by (bit_vector);
        Self::new(0xff, 0xbf, 0x01)
    }

    /// The `MASK` register value.
    pub fn primary(self) -> (value: u8)
        ensures
            value == self@.0,
    {
        self.primary
    }

    /// The `MASKA` register value.
    pub fn extended_a(self) -> (value: u8)
        ensures
            value == self@.1,
    {
        self.extended_a
    }

    /// The `MASKB` register value.
    pub fn extended_b(self) -> (value: u8)
        ensures
            value == self@.2,
    {
        self.extended_b
    }
}

/// Number of hardware retransmissions after the original transmission.
#[derive(Clone, Copy, Debug, Default, PartialEq, Eq, Structural)]
pub enum RetryCount {
    /// Do not automatically retry.
    #[default]
    Disabled,
    /// Retry once.
    One,
    /// Retry twice.
    Two,
    /// Retry three times.
    Three,
}

/// The `N_RETRIES` field of `CONTROL3` for each retry count, already shifted into place.
pub open spec fn retry_bits(count: RetryCount) -> u8 {
    match count {
        RetryCount::Disabled => 0,
        RetryCount::One => 0x02,
        RetryCount::Two => 0x04,
        RetryCount::Three => 0x06,
    }
}

impl RetryCount {
    /// The `N_RETRIES` bits of `CONTROL3` that select this retry count.
    pub fn control3_bits(self) -> (bits: u8)
        ensures
            bits == retry_bits(self),
    {
        match self {
            RetryCount::Disabled => 0,
            RetryCount::One => 0x02,
            RetryCount::Two => 0x04,
            RetryCount::Three => 0x06,
        }
    }

    /// Whether the hardware retries at all.
    pub fn automatic(self) -> (automatic: bool)
        ensures
            automatic == (self != RetryCount::Disabled),
    {
        !matches!(self, RetryCount::Disabled)
    }
}

/// Explicit FUSB302B PD PHY automation configuration.
#[derive(Clone, Copy, Debug, PartialEq, Eq)]
pub struct PhyConfig {
    /// USB PD revision encoded in hardware-generated GoodCRC headers.
    ///
    /// The default, [`PdRevision::Rev20`], uses the supported FUSB302B
    /// encoding. [`PdRevision::Rev30`] is an explicit FUSB302BMPX
    /// compatibility opt-in and requires target-hardware validation.
    pub pd_revision: PdRevision,
    /// Power role encoded in transmitted PD headers.
    pub power_role: PowerRole,
    /// Data role encoded in transmitted PD headers.
    pub data_role: DataRole,
    /// Enable hardware GoodCRC generation.
    pub auto_goodcrc: bool,
    /// Hardware retry policy. Disabled by default.
    pub retry_count: RetryCount,
    /// Allow hardware automatic soft reset handling.
    pub auto_soft_reset: bool,
    /// Allow hardware automatic hard reset handling.
    pub auto_hard_reset: bool,
    /// Receive SOP variants accepted by the PHY.
    pub receive_sop: ReceiveSopMask,
}

impl Default for PhyConfig {
    /// PD 2.0 GoodCRC encoding, sink/UFP roles, and every piece of automation disabled.
    fn default() -> (config: Self)
        ensures
            config.pd_revision == PdRevision::Rev20,
            config.power_role == PowerRole::Sink,
            config.data_role == DataRole::Ufp,
            !config.auto_goodcrc,
            config.retry_count == RetryCount::Disabled,
            !config.auto_soft_reset,
            !config.auto_hard_reset,
            config.receive_sop@ == 0,
    {
        PhyConfig {
            pd_revision: PdRevision::Rev20,
            power_role: PowerRole::Sink,
            data_role: DataRole::Ufp,
            auto_goodcrc: false,
            retry_count: RetryCount::Disabled,
            auto_soft_reset: false,
            auto_hard_reset: false,
            receive_sop: ReceiveSopMask::NONE(),
        }
    }
}

/// Device identification value returned by the FUSB302B.
#[derive(Clone, Copy, Debug, PartialEq, Eq, Structural)]
pub struct DeviceId(u8);

impl View for DeviceId {
    type V = u8;

    closed spec fn view(&self) -> u8 {
        self.0
    }
}

impl DeviceId {
    /// Wrap a raw `DEVICE_ID` register value.
    pub fn new(bits: u8) -> (id: Self)
        ensures
            id@ == bits,
    {
        Self(bits)
    }

    /// Return the raw device ID register value.
    pub fn bits(self) -> (bits: u8)
        ensures
            bits == self@,
    {
        self.0
    }

    /// Return whether the ID uses the documented FUSB302B-family `0x9x` encoding.
    pub fn is_fusb302b_family(self) -> (family: bool)
        ensures
            family == (self@ / 16 == 9),
    {
        let bits = self.0;
        assert(((bits & 0xf0) == 0x90) == (bits / 16 == 9)) by (bit_vector);
        (bits & 0xf0) == 0x90
    }
}

/// `TOGDONE` in `INTERRUPTA`: the autonomous toggle engine has settled.
pub const INTERRUPTA_TOGDONE: u8 = 0x40;
/// `RETRYFAIL` in `INTERRUPTA`: a transmission exhausted its retries without GoodCRC.
pub const INTERRUPTA_RETRYFAIL: u8 = 0x10;
/// `TXSENT` in `INTERRUPTA`: a transmission was acknowledged with GoodCRC.
pub const INTERRUPTA_TXSENT: u8 = 0x04;

/// Snapshot of all FUSB302B clear-on-read interrupt registers.
#[derive(Clone, Copy, Debug, PartialEq, Eq, Structural)]
pub struct InterruptSnapshot {
    /// Raw `INTERRUPT` (0x42) bits.
    pub interrupt: u8,
    /// Raw `INTERRUPTA` (0x3e) bits.
    pub interrupt_a: u8,
    /// Raw `INTERRUPTB` (0x3f) bits.
    pub interrupt_b: u8,
}

/// Completion outcome of one PD packet sent by the FUSB302B.
#[derive(Clone, Copy, Debug, PartialEq, Eq, Structural)]
pub enum TransmitStatus {
    /// The packet was transmitted and acknowledged before the retry limit.
    Sent,
    /// The packet exhausted the configured automatic retries without GoodCRC.
    RetryFailed,
}

/// The transmit outcome that an `INTERRUPTA` value reports; a retry failure takes precedence.
pub open spec fn transmit_status_of(interrupt_a: u8) -> Option<TransmitStatus> {
    if (interrupt_a & INTERRUPTA_RETRYFAIL) != 0 {
        Some(TransmitStatus::RetryFailed)
    } else if (interrupt_a & INTERRUPTA_TXSENT) != 0 {
        Some(TransmitStatus::Sent)
    } else {
        None
    }
}

impl InterruptSnapshot {
    /// Whether `TOGDONE` is latched in `INTERRUPTA`.
    pub open spec fn has_toggle_done(self) -> bool {
        (self.interrupt_a & INTERRUPTA_TOGDONE) != 0
    }

    /// Return whether an autonomous Type-C toggle operation completed.
    ///
    /// The FUSB302B clears this indication when its interrupt registers are read.
    pub fn toggle_done(self) -> (done: bool)
        ensures
            done == self.has_toggle_done(),
    {
        (self.interrupt_a & INTERRUPTA_TOGDONE) != 0
    }

    /// Return the completed PD-transmit outcome, if the hardware has one.
    ///
    /// A retry failure takes precedence because no GoodCRC was received for
    /// the packet. The FUSB302B clears this indication when its interrupt
    /// registers are read.
    pub fn transmit_status(self) -> (status: Option<TransmitStatus>)
        ensures
            status == transmit_status_of(self.interrupt_a),
    {
        if (self.interrupt_a & INTERRUPTA_RETRYFAIL) != 0 {
            Some(TransmitStatus::RetryFailed)
        } else if (self.interrupt_a & INTERRUPTA_TXSENT) != 0 {
            Some(TransmitStatus::Sent)
        } else {
            None
        }
    }
}

/// Non-destructive snapshot of FUSB302B status registers.
#[derive(Clone, Copy, Debug, PartialEq, Eq, Structural)]
pub struct Status {
    /// Raw `STATUS0` (0x40) bits.
    pub status0: u8,
    /// Raw `STATUS1` (0x41) bits.
    pub status1: u8,
    /// Raw `STATUS0A` (0x3c) bits.
    pub status0a: u8,
    /// Raw `STATUS1A` (0x3d) bits.
    pub status1a: u8,
}

/// Threshold configured into the FUSB302B VBUS measurement DAC.
///
/// The FUSB302B VBUS comparator increments in nominal 420 mV steps. The
/// threshold is a bounded typed value so downstream code never has to address
/// the MEASURE register or manufacture MDAC bit patterns.
#[derive(Clone, Copy, Debug, PartialEq, Eq, Structural)]
pub struct VbusThreshold(u8);

impl View for VbusThreshold {
    /// The DAC step, 0 through 63.
    type V = u8;

    closed spec fn view(&self) -> u8 {
        (self.0 % 64) as u8
    }
}

/// Every threshold is a step that the 6-bit MDAC field can hold.
pub proof fn lemma_threshold_within_dac_range(threshold: VbusThreshold)
    ensures
        threshold@ <= 0x3f,
{
}

impl VbusThreshold {
    #[verifier::type_invariant]
    closed spec fn within_dac_range(self) -> bool {
        self.0 <= 0x3f
    }

    /// A nominal 4.62 V threshold suitable for confirming vSafe5V.
    #[allow(non_snake_case)]
    pub fn VSAFE5() -> (threshold: Self)
        ensures
            threshold@ == 10,
    {
        Self(10)
    }

    /// A nominal 8.82 V lower bound for a fixed 9 V contract.
    #[allow(non_snake_case)]
    pub fn NINE_VOLTS_MIN() -> (threshold: Self)
        ensures
            threshold@ == 20,
    {
        Self(20)
    }

    /// A nominal 12.18 V upper guard for a fixed 9 V contract.
    #[allow(non_snake_case)]
    pub fn NINE_VOLTS_MAX() -> (threshold: Self)
        ensures
            threshold@ == 28,
    {
        Self(28)
    }

    /// Construct a threshold from a validated FUSB302B DAC step (0 through
    /// 63). Returns `None` instead of allowing a value outside the hardware
    /// range.
    pub fn from_mdac_step(step: u8) -> (threshold: Option<Self>)
        ensures
            threshold.is_some() == (step <= 0x3f),
            threshold matches Some(t) ==> t@ == step,
    {
        if step <= 0x3f {
            Some(Self(step))
        } else {
            None
        }
    }

    /// Return the FUSB302B DAC step selected by this threshold.
    pub fn mdac_step(self) -> (step: u8)
        ensures
            step == self@,
            step <= 0x3f,
    {
        proof {
            use_type_invariant(self);
        }
        self.0
    }

    /// Return the nominal comparator threshold in millivolts.
    pub fn nominal_millivolts(self) -> (millivolts: u16)
        ensures
            millivolts == (self@ + 1) * 420,
    {
        proof {
            use_type_invariant(self);
        }
        (self.0 as u16 + 1) * 420
    }
}

/// Result returned by the FUSB302B VBUS comparator.
#[derive(Clone, Copy, Debug, PartialEq, Eq, Structural)]
pub enum VbusComparator {
    /// VBUS is at or below the configured threshold.
    AtOrBelowThreshold,
    /// VBUS is above the configured threshold.
    AboveThreshold,
}

/// Result of the FUSB302B autonomous Type-C toggle engine.
#[derive(Clone, Copy, Debug, PartialEq, Eq, Structural)]
pub enum ToggleStatus {
    /// Toggle logic is still running.
    Running,
    /// A source termination was detected on CC1.
    SourceCc1,
    /// A source termination was detected on CC2.
    SourceCc2,
    /// A sink termination was detected on CC1.
    SinkCc1,
    /// A sink termination was detected on CC2.
    SinkCc2,
    /// An audio accessory was detected.
    AudioAccessory,
    /// The hardware returned an undefined TOGSS encoding.
    Unknown(u8),
}

/// The `TOGSS` field (bits 5:3) of `STATUS1A`.
pub open spec fn togss_field(status1a: u8) -> u8 {
    ((status1a >> 3u8) & 0x07u8) as u8
}

/// The toggle state that each `TOGSS` encoding names.
pub open spec fn toggle_status_of(togss: u8) -> ToggleStatus {
    if togss == 0 {
        ToggleStatus::Running
    } else if togss == 1 {
        ToggleStatus::SourceCc1
    } else if togss == 2 {
        ToggleStatus::SourceCc2
    } else if togss == 5 {
        ToggleStatus::SinkCc1
    } else if togss == 6 {
        ToggleStatus::SinkCc2
    } else if togss == 7 {
        ToggleStatus::AudioAccessory
    } else {
        ToggleStatus::Unknown(togss)
    }
}

/// The CC pin on which a toggle result settled, if it names one.
pub open spec fn settled_cc_of(status: ToggleStatus) -> Option<CcPin> {
    match status {
        ToggleStatus::SourceCc1 | ToggleStatus::SinkCc1 => Some(CcPin::Cc1),
        ToggleStatus::SourceCc2 | ToggleStatus::SinkCc2 => Some(CcPin::Cc2),
        _ => None,
    }
}

impl ToggleStatus {
    /// Decode the three-bit TOGSS field from STATUS1A.
    pub fn from_status1a(status1a: u8) -> (status: Self)
        ensures
            status == toggle_status_of(togss_field(status1a)),
    {
        let togss: u8 = (status1a >> 3u8) & 0x07u8;
        if togss == 0 {
            ToggleStatus::Running
        } else if togss == 1 {
            ToggleStatus::SourceCc1
        } else if togss == 2 {
            ToggleStatus::SourceCc2
        } else if togss == 5 {
            ToggleStatus::SinkCc1
        } else if togss == 6 {
            ToggleStatus::SinkCc2
        } else if togss == 7 {
            ToggleStatus::AudioAccessory
        } else {
            ToggleStatus::Unknown(togss)
        }
    }

    /// Return the settled CC pin, if the toggle engine found one.
    pub fn settled_cc(self) -> (pin: Option<CcPin>)
        ensures
            pin == settled_cc_of(self),
    {
        match self {
            ToggleStatus::SourceCc1 | ToggleStatus::SinkCc1 => Some(CcPin::Cc1),
            ToggleStatus::SourceCc2 | ToggleStatus::SinkCc2 => Some(CcPin::Cc2),
            ToggleStatus::Running | ToggleStatus::AudioAccessory | ToggleStatus::Unknown(_) => None,
        }
    }
}

/// Decoding `STATUS1A` only ever reports an undefined encoding for the two reserved `TOGSS`
/// values, and a settled CC pin exactly for the four source/sink detections.
pub proof fn lemma_toggle_decoding(status1a: u8)
    ensures
        togss_field(status1a) < 8,
        toggle_status_of(togss_field(status1a)) matches ToggleStatus::Unknown(v) ==> (v == 3 || v == 4),
        settled_cc_of(toggle_status_of(togss_field(status1a))) is Some <==> {
            let t = togss_field(status1a);
            t == 1 || t == 2 || t == 5 || t == 6
        },
{
    assert(((status1a >> 3u8) & 0x07u8) < 8) by (bit_vector);
}

/// A transmit outcome is decoded from `INTERRUPTA` alone: `I_RETRYFAIL` (bit 4) reports a
/// retry failure whether or not `I_TXSENT` (bit 2) is also latched; `I_TXSENT` alone reports a
/// sent packet; with neither bit there is no outcome.
pub proof fn lemma_transmit_status_decoding(interrupt_a: u8)
    ensures
        (interrupt_a & 0x10u8) != 0 ==> transmit_status_of(interrupt_a) == Some(
            TransmitStatus::RetryFailed,
        ),
        (interrupt_a & 0x10u8) == 0 && (interrupt_a & 0x04u8) != 0 ==> transmit_status_of(
            interrupt_a,
        ) == Some(TransmitStatus::Sent),
        (interrupt_a & 0x14u8) == 0 ==> transmit_status_of(interrupt_a) is None,
{
    assert(INTERRUPTA_RETRYFAIL == 0x10u8 && INTERRUPTA_TXSENT == 0x04u8);
    assert((interrupt_a & 0x14u8) == 0 ==> (interrupt_a & 0x10u8) == 0 && (interrupt_a & 0x04u8)
        == 0) by (bit_vector);
}

/// Toggle completion is `I_TOGDONE`, bit 6 of `INTERRUPTA`, and nothing else.
pub proof fn lemma_toggle_done_bit(snapshot: InterruptSnapshot)
    ensures
        snapshot.has_toggle_done() <==> (snapshot.interrupt_a & 0x40u8) != 0,
{
    assert(INTERRUPTA_TOGDONE == 0x40u8);
}

/// `STATUS1A` carries the toggle result in `TOGSS`, bits 5:3 (the value `(s / 8) % 8`): 0 is
/// still running, 1 and 2 a source on CC1 and CC2, 5 and 6 a sink on CC1 and CC2, 7 an audio
/// accessory, and the reserved 3 and 4 are reported as unknown with their value.
pub proof fn lemma_toggle_status_encoding(status1a: u8)
    ensures
        ({
            let t = (status1a / 8) % 8;
            let status = toggle_status_of(togss_field(status1a));
            &&& (status == ToggleStatus::Running) == (t == 0)
            &&& (status == ToggleStatus::SourceCc1) == (t == 1)
            &&& (status == ToggleStatus::SourceCc2) == (t == 2)
            &&& (status == ToggleStatus::SinkCc1) == (t == 5)
            &&& (status == ToggleStatus::SinkCc2) == (t == 6)
            &&& (status == ToggleStatus::AudioAccessory) == (t == 7)
            &&& (t == 3 || t == 4) ==> status == ToggleStatus::Unknown(t as u8)
        }),
{
    assert(((status1a >> 3u8) & 0x07u8) == (status1a / 8) % 8) by (bit_vector);
}

} // verus!
