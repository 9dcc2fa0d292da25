//! FUSB302B register names, bit positions and strongly typed electrical controls.

use vstd::prelude::*;

verus! {

/// FUSB302B register address.
#[derive(Clone, Copy, Debug, PartialEq, Eq, Structural)]
pub enum Register {
    /// Device identity and revision.
    DeviceId,
    /// CC, VCONN, measurement, and pull control.
    Switches0,
    /// PD header and transmit CC control.
    Switches1,
    /// Comparator measurement configuration.
    Measure,
    /// Transmit and host-current control.
    Control0,
    /// Receive SOP masks and FIFO control.
    Control1,
    /// Type-C toggle control.
    Control2,
    /// PD automatic retry and reset control.
    Control3,
    /// Primary interrupt mask.
    Mask,
    /// Power control.
    Power,
    /// Software and PD reset.
    Reset,
    /// Extended interrupt mask A.
    MaskA,
    /// Extended interrupt mask B.
    MaskB,
    /// Extended status A.
    Status0A,
    /// Extended status B.
    Status1A,
    /// Clear-on-read interrupt A.
    InterruptA,
    /// Clear-on-read interrupt B.
    InterruptB,
    /// Primary status 0.
    Status0,
    /// Primary status 1.
    Status1,
    /// Clear-on-read primary interrupt.
    Interrupt,
    /// Receive and transmit FIFO.
    Fifo,
}

/// The I2C address of each register, as the FUSB302B register map assigns it.
pub open spec fn register_address(register: Register) -> u8 {
    match register {
        Register::DeviceId => 0x01,
        Register::Switches0 => 0x02,
        Register::Switches1 => 0x03,
        Register::Measure => 0x04,
        Register::Control0 => 0x06,
        Register::Control1 => 0x07,
        Register::Control2 => 0x08,
        Register::Control3 => 0x09,
        Register::Mask => 0x0a,
        Register::Power => 0x0b,
        Register::Reset => 0x0c,
        Register::MaskA => 0x0e,
        Register::MaskB => 0x0f,
        Register::Status0A => 0x3c,
        Register::Status1A => 0x3d,
        Register::InterruptA => 0x3e,
        Register::InterruptB => 0x3f,
        Register::Status0 => 0x40,
        Register::Status1 => 0x41,
        Register::Interrupt => 0x42,
        Register::Fifo => 0x43,
    }
}

impl Register {
    /// Return the register's I2C address.
    pub fn address(self) -> (address: u8)
        ensures
            address == register_address(self),
    {
        match self {
            Register::DeviceId => 0x01,
            Register::Switches0 => 0x02,
            Register::Switches1 => 0x03,
            Register::Measure => 0x04,
            Register::Control0 => 0x06,
            Register::Control1 => 0x07,
            Register::Control2 => 0x08,
            Register::Control3 => 0x09,
            Register::Mask => 0x0a,
            Register::Power => 0x0b,
            Register::Reset => 0x0c,
            Register::MaskA => 0x0e,
            Register::MaskB => 0x0f,
            Register::Status0A => 0x3c,
            Register::Status1A => 0x3d,
            Register::InterruptA => 0x3e,
            Register::InterruptB => 0x3f,
            Register::Status0 => 0x40,
            Register::Status1 => 0x41,
            Register::Interrupt => 0x42,
            Register::Fifo => 0x43,
        }
    }
}

/// Distinct registers have distinct I2C addresses, so a transfer names exactly one register.
pub proof fn lemma_register_address_injective(a: Register, b: Register)
    ensures
        register_address(a) == register_address(b) <==> a == b,
{
}

/// CC pin.
#[derive(Clone, Copy, Debug, PartialEq, Eq, Structural)]
pub enum CcPin {
    /// CC1.
    Cc1,
    /// CC2.
    Cc2,
}

/// Termination applied to one CC pin.
#[derive(Clone, Copy, Debug, PartialEq, Eq, Structural)]
pub enum CcPull {
    /// Leave the pin electrically open.
    Open,
    /// Apply the FUSB302B pull-down (Rd).
    Down,
    /// Apply the FUSB302B pull-up (Rp).
    Up,
}

/// USB PD power role encoded in a transmitted PD header.
#[derive(Clone, Copy, Debug, PartialEq, Eq, Structural)]
pub enum PowerRole {
    /// Sink/UFP power role.
    Sink,
    /// Source/DFP power role.
    Source,
}

/// USB PD data role encoded in a transmitted PD header.
#[derive(Clone, Copy, Debug, PartialEq, Eq, Structural)]
pub enum DataRole {
    /// UFP data role.
    Ufp,
    /// DFP data role.
    Dfp,
}

/// USB PD revision encoded in a transmitted PD header.
#[derive(Clone, Copy, Debug, PartialEq, Eq, Structural)]
pub enum PdRevision {
    /// USB PD revision 2.0.
    Rev20,
    /// USB PD revision 3.0.
    Rev30,
}

/// Type-C role detection mode used by FUSB302B autonomous toggling.
#[derive(Clone, Copy, Debug, PartialEq, Eq, Structural)]
pub enum ToggleMode {
    /// Toggle while looking for a sink (DFP/source behavior).
    Source,
    /// Toggle while looking for a source (UFP/sink behavior).
    Sink,
    /// Toggle between source and sink behavior.
    DualRole,
}

/// Type-C Rp current advertisement applied by the FUSB302B pull-up current sources.
#[derive(Clone, Copy, Debug, PartialEq, Eq, Structural)]
pub enum HostCurrent {
    /// Default USB power (80 uA pull-up).
    Default,
    /// 1.5 A advertisement (180 uA pull-up).
    Current1A5,
    /// 3.0 A advertisement (330 uA pull-up).
    Current3A,
}

/// The `HOST_CUR` field encoding of each advertisement, already shifted into `CONTROL0`.
pub open spec fn host_current_bits(current: HostCurrent) -> u8 {
    match current {
        HostCurrent::Default => 0x04,
        HostCurrent::Current1A5 => 0x08,
        HostCurrent::Current3A => 0x0c,
    }
}

impl HostCurrent {
    /// Return the `HOST_CUR` bits of `CONTROL0` that select this advertisement.
    pub fn control0_bits(self) -> (bits: u8)
        ensures
            bits == host_current_bits(self),
            (bits & CONTROL0_HOST_CURRENT_MASK) == bits,
            bits != 0,
    {
        let bits: u8 = match self {
            HostCurrent::Default => 0x04,
            HostCurrent::Current1A5 => 0x08,
            HostCurrent::Current3A => 0x0c,
        };
        assert((bits & 0x0c) == bits) by (bit_vector)
            requires
                bits == 0x04 || bits == 0x08 || bits == 0x0c,
        ;
        bits
    }
}

pub const SWITCHES0_PU_EN2: u8 = 0x80;
pub const SWITCHES0_PU_EN1: u8 = 0x40;
pub const SWITCHES0_VCONN_CC2: u8 = 0x20;
pub const SWITCHES0_VCONN_CC1: u8 = 0x10;
pub const SWITCHES0_MEAS_CC2: u8 = 0x08;
pub const SWITCHES0_MEAS_CC1: u8 = 0x04;
pub const SWITCHES0_PDWN2: u8 = 0x02;
pub const SWITCHES0_PDWN1: u8 = 0x01;

pub const SWITCHES1_POWER_ROLE: u8 = 0x80;
pub const SWITCHES1_SPEC_REV_MASK: u8 = 0x60;
pub const SWITCHES1_DATA_ROLE: u8 = 0x10;
pub const SWITCHES1_AUTO_CRC: u8 = 0x04;
pub const SWITCHES1_TXCC2: u8 = 0x02;
pub const SWITCHES1_TXCC1: u8 = 0x01;
/// Every documented `SWITCHES1` bit (bit 3 is reserved).
pub const SWITCHES1_RW_MASK: u8 = 0xf7;

pub const MEASURE_MEAS_VBUS: u8 = 0x40;
pub const MEASURE_MDAC_MASK: u8 = 0x3f;
/// Every documented `MEASURE` bit (bit 7 is reserved).
pub const MEASURE_RW_MASK: u8 = 0x7f;

pub const CONTROL0_TX_FLUSH: u8 = 0x40;
pub const CONTROL0_HOST_CURRENT_MASK: u8 = 0x0c;
/// The retained `CONTROL0` settings: `INT_MASK`, `HOST_CUR` and `AUTO_PRE`.
pub const CONTROL0_RW_MASK: u8 = 0x2e;

pub const CONTROL1_ENSOP2DB: u8 = 0x40;
pub const CONTROL1_ENSOP1DB: u8 = 0x20;
pub const CONTROL1_BIST_MODE2: u8 = 0x10;
pub const CONTROL1_RX_FLUSH: u8 = 0x04;
pub const CONTROL1_ENSOP2: u8 = 0x02;
pub const CONTROL1_ENSOP1: u8 = 0x01;
/// The retained `CONTROL1` settings: the four SOP enables and `BIST_MODE2`.
pub const CONTROL1_RW_MASK: u8 = 0x73;

pub const CONTROL2_MODE_DFP: u8 = 0x06;
pub const CONTROL2_MODE_UFP: u8 = 0x04;
pub const CONTROL2_MODE_DRP: u8 = 0x02;
pub const CONTROL2_MODE_MASK: u8 = 0x06;
pub const CONTROL2_TOGGLE: u8 = 0x01;
/// Every documented `CONTROL2` bit (bit 4 is reserved).
pub const CONTROL2_RW_MASK: u8 = 0xef;

pub const CONTROL3_BIST_TMODE: u8 = 0x20;
pub const CONTROL3_AUTO_HARD_RESET: u8 = 0x10;
pub const CONTROL3_AUTO_SOFT_RESET: u8 = 0x08;
pub const CONTROL3_RETRY_COUNT_MASK: u8 = 0x06;
pub const CONTROL3_AUTO_RETRY: u8 = 0x01;

pub const POWER_ALL: u8 = 0x0f;
/// Bandgap and wake circuit only: the power state for autonomous toggling.
pub const POWER_TOGGLE_DETECTION: u8 = 0x01;

pub const RESET_PD: u8 = 0x02;
pub const RESET_SW: u8 = 0x01;

pub const STATUS0_COMP: u8 = 0x20;
pub const STATUS1_RX_EMPTY: u8 = 0x20;
pub const STATUS1_TX_EMPTY: u8 = 0x08;

} // verus!
