//! Read-modify-write register edits: the value the driver writes back to a register, as a
//! function of the value it read.
//!
//! Each `*_value` spec function is the definition of one edit; the exec functions compute
//! exactly that value, and the `lemma_*` proofs state what each edit means bit by bit.

use vstd::prelude::*;

use crate::registers::{
    register_address, Register, CcPin, CcPull, DataRole, HostCurrent, PdRevision, PowerRole, ToggleMode,
    host_current_bits, CONTROL0_HOST_CURRENT_MASK, CONTROL0_RW_MASK, CONTROL0_TX_FLUSH,
    CONTROL1_BIST_MODE2, CONTROL1_ENSOP1, CONTROL1_ENSOP1DB, CONTROL1_ENSOP2, CONTROL1_ENSOP2DB,
    CONTROL1_RW_MASK, CONTROL1_RX_FLUSH, CONTROL2_MODE_DFP, CONTROL2_MODE_DRP, CONTROL2_MODE_UFP,
    CONTROL2_RW_MASK, CONTROL2_TOGGLE, CONTROL3_AUTO_HARD_RESET, CONTROL3_AUTO_RETRY,
    CONTROL3_AUTO_SOFT_RESET, CONTROL3_BIST_TMODE, CONTROL3_RETRY_COUNT_MASK, MEASURE_MDAC_MASK,
    MEASURE_MEAS_VBUS, MEASURE_RW_MASK, SWITCHES0_MEAS_CC1, SWITCHES0_MEAS_CC2, SWITCHES0_PDWN1,
    SWITCHES0_PDWN2, SWITCHES0_PU_EN1, SWITCHES0_PU_EN2, SWITCHES0_VCONN_CC1, SWITCHES0_VCONN_CC2,
    SWITCHES1_AUTO_CRC, SWITCHES1_DATA_ROLE, SWITCHES1_POWER_ROLE, SWITCHES1_RW_MASK,
    SWITCHES1_SPEC_REV_MASK, SWITCHES1_TXCC1, SWITCHES1_TXCC2,
};
use crate::types::{PhyConfig, ReceiveSopMask, RetryCount, VbusThreshold, retry_bits};

verus! {

/// `POWERROLE` bit for a power role.
pub open spec fn power_role_bit(role: PowerRole) -> u8 {
    match role {
        PowerRole::Source => SWITCHES1_POWER_ROLE,
        PowerRole::Sink => 0,
    }
}

/// `DATAROLE` bit for a data role.
pub open spec fn data_role_bit(role: DataRole) -> u8 {
    match role {
        DataRole::Dfp => SWITCHES1_DATA_ROLE,
        DataRole::Ufp => 0,
    }
}

/// `SPECREV` field (bits 6:5) for a GoodCRC revision: `01` for PD 2.0, `10` for PD 3.0.
pub open spec fn spec_rev_bits(revision: PdRevision) -> u8 {
    match revision {
        PdRevision::Rev20 => 0x20,
        PdRevision::Rev30 => 0x40,
    }
}

/// `SWITCHES1` after `configure_phy`: the transmit CC selection is kept, the header roles,
/// GoodCRC revision and automatic GoodCRC come from the configuration, and the reserved bit
/// is cleared.
pub open spec fn phy_header_value(value: u8, config: PhyConfig) -> u8 {
    (value & (SWITCHES1_TXCC1 | SWITCHES1_TXCC2)) | power_role_bit(config.power_role) | (
    spec_rev_bits(config.pd_revision) & SWITCHES1_SPEC_REV_MASK) | data_role_bit(config.data_role)
        | (if config.auto_goodcrc {
        SWITCHES1_AUTO_CRC
    } else {
        0u8
    })
}

/// Compute the `SWITCHES1` value that `configure_phy` writes.
pub fn configure_switches1(value: u8, config: PhyConfig) -> (next: u8)
    ensures
        next == phy_header_value(value, config),
{
    let role: u8 = match config.power_role {
        PowerRole::Source => SWITCHES1_POWER_ROLE,
        PowerRole::Sink => 0,
    };
    let specification_revision: u8 = match config.pd_revision {
        PdRevision::Rev20 => 0x20,
        PdRevision::Rev30 => 0x40,
    };
    let data: u8 = match config.data_role {
        DataRole::Dfp => SWITCHES1_DATA_ROLE,
        DataRole::Ufp => 0,
    };
    let crc: u8 = if config.auto_goodcrc {
        SWITCHES1_AUTO_CRC
    } else {
        0
    };
    (value & (SWITCHES1_TXCC1 | SWITCHES1_TXCC2)) | role | (specification_revision
        & SWITCHES1_SPEC_REV_MASK) | data | crc
}

/// What `configure_phy` writes to `SWITCHES1`: each header field is exactly the configured
/// one, the transmit CC pins are untouched, and the reserved bit 3 is never set.
/// With the default revision the GoodCRC header carries `SPECREV = 01` (USB PD 2.0).
pub proof fn lemma_phy_header_fields(value: u8, config: PhyConfig)
    ensures
        ({
            let next = phy_header_value(value, config);
            &&& (next & (SWITCHES1_TXCC1 | SWITCHES1_TXCC2)) == (value & (SWITCHES1_TXCC1
                | SWITCHES1_TXCC2))
            &&& ((next & SWITCHES1_POWER_ROLE) != 0) == (config.power_role == PowerRole::Source)
            &&& ((next & SWITCHES1_DATA_ROLE) != 0) == (config.data_role == DataRole::Dfp)
            &&& ((next & SWITCHES1_AUTO_CRC) != 0) == config.auto_goodcrc
            &&& (next & SWITCHES1_SPEC_REV_MASK) == spec_rev_bits(config.pd_revision)
            &&& (next & 0x08) == 0
        }),
        config.pd_revision == PdRevision::Rev20 ==> (phy_header_value(value, config) & 0x60)
            == 0x20,
{
    assert((SWITCHES1_TXCC1 | SWITCHES1_TXCC2) == 0x03u8) by (bit_vector);
    let v = value;
    let a = power_role_bit(config.power_role);
    let r = spec_rev_bits(config.pd_revision);
    let d = data_role_bit(config.data_role);
    let c: u8 = if config.auto_goodcrc {
        SWITCHES1_AUTO_CRC
    } else {
        0u8
    };
    assert(a == 0 || a == 0x80);
    assert(r == 0x20 || r == 0x40);
    assert(d == 0 || d == 0x10);
    assert(c == 0 || c == 0x04);
    assert({
        let n = (v & 0x03) | a | (r & 0x60) | d | c;
        &&& (n & 0x03) == (v & 0x03)
        &&& ((n & 0x80) != 0) == (a == 0x80)
        &&& ((n & 0x10) != 0) == (d == 0x10)
        &&& ((n & 0x04) != 0) == (c == 0x04)
        &&& (n & 0x60) == r
        &&& (n & 0x08) == 0
    }) by (bit_vector)
        requires
            a == 0 || a == 0x80,
            r == 0x20 || r == 0x40,
            d == 0 || d == 0x10,
            c == 0 || c == 0x04,
    ;
}

/// The `CONTROL1` enable bits for each selected cable SOP variant. Standard SOP is always
/// received, so its selection bit has no enable of its own.
pub open spec fn receive_sop_enables(mask: u8) -> u8 {
    (if (mask & 0x02) != 0 {
        CONTROL1_ENSOP1
    } else {
        0u8
    }) | (if (mask & 0x04) != 0 {
        CONTROL1_ENSOP2
    } else {
        0u8
    }) | (if (mask & 0x08) != 0 {
        CONTROL1_ENSOP1DB
    } else {
        0u8
    }) | (if (mask & 0x10) != 0 {
        CONTROL1_ENSOP2DB
    } else {
        0u8
    })
}

/// Map a receive selection onto the `CONTROL1` SOP enable bits.
pub fn receive_sop_bits(mask: ReceiveSopMask) -> (bits: u8)
    ensures
        bits == receive_sop_enables(mask@),
{
    let m = mask.bits();
    let sop1: u8 = if (m & ReceiveSopMask::SOP_PRIME().bits()) != 0 {
        CONTROL1_ENSOP1
    } else {
        0
    };
    let sop2: u8 = if (m & ReceiveSopMask::SOP_DOUBLE_PRIME().bits()) != 0 {
        CONTROL1_ENSOP2
    } else {
        0
    };
    let sop1_debug: u8 = if (m & ReceiveSopMask::SOP_PRIME_DEBUG().bits()) != 0 {
        CONTROL1_ENSOP1DB
    } else {
        0
    };
    let sop2_debug: u8 = if (m & ReceiveSopMask::SOP_DOUBLE_PRIME_DEBUG().bits()) != 0 {
        CONTROL1_ENSOP2DB
    } else {
        0
    };
    sop1 | sop2 | sop1_debug | sop2_debug
}

/// `CONTROL1` after `configure_phy`: `BIST_MODE2` is kept, the SOP enables follow the
/// selection, and the flush command and reserved bits are cleared.
pub open spec fn receive_sop_value(value: u8, mask: ReceiveSopMask) -> u8 {
    (value & CONTROL1_BIST_MODE2) | receive_sop_enables(mask@)
}

/// Each cable SOP variant is enabled exactly when it is selected; the selection of standard
/// SOP, which the hardware always receives, changes nothing.
pub proof fn lemma_receive_sop_fields(value: u8, mask: ReceiveSopMask)
    ensures
        ({
            let next = receive_sop_value(value, mask);
            &&& (next & CONTROL1_BIST_MODE2) == (value & CONTROL1_BIST_MODE2)
            &&& ((next & CONTROL1_ENSOP1) != 0) == ((mask@ & 0x02) != 0)
            &&& ((next & CONTROL1_ENSOP2) != 0) == ((mask@ & 0x04) != 0)
            &&& ((next & CONTROL1_ENSOP1DB) != 0) == ((mask@ & 0x08) != 0)
            &&& ((next & CONTROL1_ENSOP2DB) != 0) == ((mask@ & 0x10) != 0)
            &&& (next & 0x8cu8) == 0
        }),
        receive_sop_enables(mask@ | 0x01) == receive_sop_enables(mask@),
{
    let v = value;
    let m = mask@;
    assert({
        let e = (if (m & 0x02) != 0 {
            1u8
        } else {
            0u8
        }) | (if (m & 0x04) != 0 {
            2u8
        } else {
            0u8
        }) | (if (m & 0x08) != 0 {
            0x20u8
        } else {
            0u8
        }) | (if (m & 0x10) != 0 {
            0x40u8
        } else {
            0u8
        });
        let n = (v & 0x10) | e;
        &&& (n & 0x10) == (v & 0x10)
        &&& ((n & 0x01) != 0) == ((m & 0x02) != 0)
        &&& ((n & 0x02) != 0) == ((m & 0x04) != 0)
        &&& ((n & 0x20) != 0) == ((m & 0x08) != 0)
        &&& ((n & 0x40) != 0) == ((m & 0x10) != 0)
        &&& (n & 0x8cu8) == 0
    }) by (bit_vector);
    assert(((m | 0x01) & 0x02) == (m & 0x02) && ((m | 0x01) & 0x04) == (m & 0x04) && ((m | 0x01)
        & 0x08) == (m & 0x08) && ((m | 0x01) & 0x10) == (m & 0x10)) by (bit_vector);
}

/// `CONTROL3` after `configure_phy`: `BIST_TMODE` is kept, the reset automation and retry
/// policy come from the configuration, and `SEND_HARD_RESET` and the reserved bit are cleared.
pub open spec fn automation_value(value: u8, config: PhyConfig) -> u8 {
    (value & CONTROL3_BIST_TMODE) | (if config.auto_hard_reset {
        CONTROL3_AUTO_HARD_RESET
    } else {
        0u8
    }) | (if config.auto_soft_reset {
        CONTROL3_AUTO_SOFT_RESET
    } else {
        0u8
    }) | (retry_bits(config.retry_count) & CONTROL3_RETRY_COUNT_MASK) | (if config.retry_count
        != RetryCount::Disabled {
        CONTROL3_AUTO_RETRY
    } else {
        0u8
    })
}

/// Compute the `CONTROL3` value that `configure_phy` writes.
pub fn configure_control3(value: u8, config: PhyConfig) -> (next: u8)
    ensures
        next == automation_value(value, config),
{
    let h: u8 = if config.auto_hard_reset {
        CONTROL3_AUTO_HARD_RESET
    } else {
        0
    };
    let s: u8 = if config.auto_soft_reset {
        CONTROL3_AUTO_SOFT_RESET
    } else {
        0
    };
    let r: u8 = config.retry_count.control3_bits() & CONTROL3_RETRY_COUNT_MASK;
    let a: u8 = if config.retry_count.automatic() {
        CONTROL3_AUTO_RETRY
    } else {
        0
    };
    (value & CONTROL3_BIST_TMODE) | h | s | r | a
}

/// Every automation bit of `CONTROL3` is exactly what the configuration asks for: automatic
/// retry is on precisely when a retry count is chosen, and a hard reset is never sent.
pub proof fn lemma_automation_fields(value: u8, config: PhyConfig)
    ensures
        ({
            let next = automation_value(value, config);
            &&& (next & CONTROL3_BIST_TMODE) == (value & CONTROL3_BIST_TMODE)
            &&& ((next & CONTROL3_AUTO_HARD_RESET) != 0) == config.auto_hard_reset
            &&& ((next & CONTROL3_AUTO_SOFT_RESET) != 0) == config.auto_soft_reset
            &&& (next & CONTROL3_RETRY_COUNT_MASK) == retry_bits(config.retry_count)
            &&& ((next & CONTROL3_AUTO_RETRY) != 0) == (config.retry_count != RetryCount::Disabled)
            &&& (next & 0xc0) == 0
        }),
{
    let v = value;
    let h: u8 = if config.auto_hard_reset {
        0x10u8
    } else {
        0u8
    };
    let s: u8 = if config.auto_soft_reset {
        0x08u8
    } else {
        0u8
    };
    let r = retry_bits(config.retry_count);
    let a: u8 = if config.retry_count != RetryCount::Disabled {
        1u8
    } else {
        0u8
    };
    assert(r == 0 || r == 2 || r == 4 || r == 6);
    assert({
        let n = (v & 0x20) | h | s | (r & 0x06) | a;
        &&& (n & 0x20) == (v & 0x20)
        &&& ((n & 0x10) != 0) == (h == 0x10)
        &&& ((n & 0x08) != 0) == (s == 0x08)
        &&& (n & 0x06) == r
        &&& ((n & 0x01) != 0) == (a == 1)
        &&& (n & 0xc0) == 0
    }) by (bit_vector)
        requires
            h == 0 || h == 0x10,
            s == 0 || s == 0x08,
            r == 0 || r == 2 || r == 4 || r == 6,
            a == 0 || a == 1,
    ;
}

/// The pull-up enable bit of a CC pin in `SWITCHES0`.
pub open spec fn pull_up_bit(pin: CcPin) -> u8 {
    match pin {
        CcPin::Cc1 => SWITCHES0_PU_EN1,
        CcPin::Cc2 => SWITCHES0_PU_EN2,
    }
}

/// The pull-down enable bit of a CC pin in `SWITCHES0`.
pub open spec fn pull_down_bit(pin: CcPin) -> u8 {
    match pin {
        CcPin::Cc1 => SWITCHES0_PDWN1,
        CcPin::Cc2 => SWITCHES0_PDWN2,
    }
}

/// `SWITCHES0` with one CC pin's termination replaced.
pub open spec fn cc_pull_value(value: u8, pin: CcPin, pull: CcPull) -> u8 {
    let up = pull_up_bit(pin);
    let down = pull_down_bit(pin);
    match pull {
        CcPull::Open => value & !(up | down),
        CcPull::Down => (value & !up) | down,
        CcPull::Up => (value & !down) | up,
    }
}

/// Compute `SWITCHES0` with one CC pin's termination replaced.
pub fn apply_cc_pull(value: u8, pin: CcPin, pull: CcPull) -> (next: u8)
    ensures
        next == cc_pull_value(value, pin, pull),
{
    let (up, down) = match pin {
        CcPin::Cc1 => (SWITCHES0_PU_EN1, SWITCHES0_PDWN1),
        CcPin::Cc2 => (SWITCHES0_PU_EN2, SWITCHES0_PDWN2),
    };
    match pull {
        CcPull::Open => value & !(up | down),
        CcPull::Down => (value & !up) | down,
        CcPull::Up => (value & !down) | up,
    }
}

/// Setting one CC pin's termination leaves every other `SWITCHES0` bit, including the other
/// pin's termination, unchanged, and never enables pull-up and pull-down together on the pin.
pub proof fn lemma_cc_pull_fields(value: u8, pin: CcPin, pull: CcPull)
    ensures
        ({
            let up = pull_up_bit(pin);
            let down = pull_down_bit(pin);
            let next = cc_pull_value(value, pin, pull);
            &&& (next & !(up | down)) == (value & !(up | down))
            &&& (next & (up | down)) == match pull {
                CcPull::Open => 0u8,
                CcPull::Down => down,
                CcPull::Up => up,
            }
        }),
{
    let up = pull_up_bit(pin);
    let down = pull_down_bit(pin);
    let v = value;
    assert((up == 0x40 && down == 0x01) || (up == 0x80 && down == 0x02));
    assert({
        &&& ((v & !(up | down)) & !(up | down)) == (v & !(up | down))
        &&& ((v & !(up | down)) & (up | down)) == 0
        &&& (((v & !up) | down) & !(up | down)) == (v & !(up | down))
        &&& (((v & !up) | down) & (up | down)) == down
        &&& (((v & !down) | up) & !(up | down)) == (v & !(up | down))
        &&& (((v & !down) | up) & (up | down)) == up
    }) by (bit_vector)
        requires
            (up == 0x40 && down == 0x01) || (up == 0x80 && down == 0x02),
    ;
}

/// The `SWITCHES0` bit that closes the selected VCONN switch, if any.
pub open spec fn vconn_bit(pin: Option<CcPin>) -> u8 {
    match pin {
        Some(CcPin::Cc1) => SWITCHES0_VCONN_CC1,
        Some(CcPin::Cc2) => SWITCHES0_VCONN_CC2,
        None => 0,
    }
}

/// `SWITCHES0` with VCONN routed to at most the selected pin.
pub open spec fn vconn_value(value: u8, pin: Option<CcPin>) -> u8 {
    (value & !(SWITCHES0_VCONN_CC1 | SWITCHES0_VCONN_CC2)) | vconn_bit(pin)
}

/// Compute `SWITCHES0` with VCONN routed to at most the selected pin.
pub fn select_vconn(value: u8, pin: Option<CcPin>) -> (next: u8)
    ensures
        next == vconn_value(value, pin),
{
    let bit: u8 = match pin {
        Some(CcPin::Cc1) => SWITCHES0_VCONN_CC1,
        Some(CcPin::Cc2) => SWITCHES0_VCONN_CC2,
        None => 0,
    };
    (value & !(SWITCHES0_VCONN_CC1 | SWITCHES0_VCONN_CC2)) | bit
}

/// The `SWITCHES0` bit that connects the measurement block to the selected pin, if any.
pub open spec fn measure_cc_bit(pin: Option<CcPin>) -> u8 {
    match pin {
        Some(CcPin::Cc1) => SWITCHES0_MEAS_CC1,
        Some(CcPin::Cc2) => SWITCHES0_MEAS_CC2,
        None => 0,
    }
}

/// `SWITCHES0` with the measurement block connected to at most the selected pin.
pub open spec fn measure_cc_value(value: u8, pin: Option<CcPin>) -> u8 {
    (value & !(SWITCHES0_MEAS_CC1 | SWITCHES0_MEAS_CC2)) | measure_cc_bit(pin)
}

/// Compute `SWITCHES0` with the measurement block connected to at most the selected pin.
pub fn select_measure_cc(value: u8, pin: Option<CcPin>) -> (next: u8)
    ensures
        next == measure_cc_value(value, pin),
{
    let bit: u8 = match pin {
        Some(CcPin::Cc1) => SWITCHES0_MEAS_CC1,
        Some(CcPin::Cc2) => SWITCHES0_MEAS_CC2,
        None => 0,
    };
    (value & !(SWITCHES0_MEAS_CC1 | SWITCHES0_MEAS_CC2)) | bit
}

/// Selecting the VCONN pin or the measured pin changes only that pair of switches, closes
/// exactly the selected one, and so never closes both pins of a pair.
pub proof fn lemma_pin_selection_fields(value: u8, pin: Option<CcPin>)
    ensures
        (vconn_value(value, pin) & !0x30u8) == (value & !0x30u8),
        (vconn_value(value, pin) & 0x30u8) == vconn_bit(pin),
        (vconn_value(value, pin) & 0x30u8) != 0x30u8,
        (measure_cc_value(value, pin) & !0x0cu8) == (value & !0x0cu8),
        (measure_cc_value(value, pin) & 0x0cu8) == measure_cc_bit(pin),
        (measure_cc_value(value, pin) & 0x0cu8) != 0x0cu8,
{
    assert((SWITCHES0_VCONN_CC1 | SWITCHES0_VCONN_CC2) == 0x30u8) by (bit_vector);
    assert((SWITCHES0_MEAS_CC1 | SWITCHES0_MEAS_CC2) == 0x0cu8) by (bit_vector);
    let v = value;
    let b = vconn_bit(pin);
    let m = measure_cc_bit(pin);
    assert({
        &&& (((v & !0x30u8) | b) & !0x30u8) == (v & !0x30u8)
        &&& (((v & !0x30u8) | b) & 0x30u8) == b
    }) by (bit_vector)
        requires
            b == 0 || b == 0x10 || b == 0x20,
    ;
    assert({
        &&& (((v & !0x0cu8) | m) & !0x0cu8) == (v & !0x0cu8)
        &&& (((v & !0x0cu8) | m) & 0x0cu8) == m
    }) by (bit_vector)
        requires
            m == 0 || m == 0x04 || m == 0x08,
    ;
}

/// `MEASURE` with the comparator taken away from VBUS.
pub open spec fn end_vbus_measurement_value(value: u8) -> u8 {
    value & !MEASURE_MEAS_VBUS
}

/// Compute `MEASURE` with the comparator taken away from VBUS.
pub fn leave_vbus_measurement(value: u8) -> (next: u8)
    ensures
        next == end_vbus_measurement_value(value),
{
    value & !MEASURE_MEAS_VBUS
}

/// `MEASURE` routed to VBUS at the threshold's DAC step; the reserved bit is kept.
pub open spec fn measure_vbus_value(value: u8, threshold: VbusThreshold) -> u8 {
    (value & !MEASURE_RW_MASK) | MEASURE_MEAS_VBUS | (threshold@ & MEASURE_MDAC_MASK)
}

/// Compute `MEASURE` routed to VBUS at the threshold's DAC step.
pub fn measure_vbus(value: u8, threshold: VbusThreshold) -> (next: u8)
    ensures
        next == measure_vbus_value(value, threshold),
        (next & 0x3fu8) == threshold@,
        (next & 0x40u8) == 0x40u8,
        (next & 0x80u8) == (value & 0x80u8),
{
    proof {
        lemma_vbus_measurement_fields(value, threshold);
    }
    (value & !MEASURE_RW_MASK) | MEASURE_MEAS_VBUS | (threshold.mdac_step() & MEASURE_MDAC_MASK)
}

/// VBUS measurement sets `MEAS_VBUS` (bit 6), programs the 6-bit DAC field with exactly the
/// threshold's step, whatever step the register held before, and keeps the reserved bit 7;
/// leaving it clears only `MEAS_VBUS`.
pub proof fn lemma_vbus_measurement_fields(value: u8, threshold: VbusThreshold)
    ensures
        (measure_vbus_value(value, threshold) & 0x3fu8) == threshold@,
        (measure_vbus_value(value, threshold) & 0x40u8) == 0x40u8,
        (measure_vbus_value(value, threshold) & 0x80u8) == (value & 0x80u8),
        (end_vbus_measurement_value(value) & 0x40u8) == 0,
        (end_vbus_measurement_value(value) & !0x40u8) == (value & !0x40u8),
{
    crate::types::lemma_threshold_within_dac_range(threshold);
    let v = value;
    let t = threshold@;
    assert((MEASURE_RW_MASK, MEASURE_MEAS_VBUS, MEASURE_MDAC_MASK) == (0x7fu8, 0x40u8, 0x3fu8));
    assert({
        &&& (((v & !0x7fu8) | 0x40u8 | (t & 0x3fu8)) & 0x3fu8) == t
        &&& (((v & !0x7fu8) | 0x40u8 | (t & 0x3fu8)) & 0x40u8) == 0x40u8
        &&& (((v & !0x7fu8) | 0x40u8 | (t & 0x3fu8)) & 0x80u8) == (v & 0x80u8)
        &&& ((v & !0x40u8) & 0x40u8) == 0
        &&& ((v & !0x40u8) & !0x40u8) == (v & !0x40u8)
    }) by (bit_vector)
        requires
            t <= 0x3f,
    ;
}

/// `CONTROL0` advertising the chosen Rp current.
pub open spec fn host_current_value(value: u8, current: HostCurrent) -> u8 {
    (value & !CONTROL0_HOST_CURRENT_MASK) | host_current_bits(current)
}

/// Compute `CONTROL0` advertising the chosen Rp current.
pub fn select_host_current(value: u8, current: HostCurrent) -> (next: u8)
    ensures
        next == host_current_value(value, current),
{
    (value & !CONTROL0_HOST_CURRENT_MASK) | current.control0_bits()
}

/// Selecting the Rp current writes exactly its `HOST_CUR` encoding and leaves every other
/// `CONTROL0` bit alone.
pub proof fn lemma_host_current_fields(value: u8, current: HostCurrent)
    ensures
        host_current_value(value, current) & 0x0cu8 == host_current_bits(current),
        host_current_value(value, current) & !0x0cu8 == value & !0x0cu8,
{
    let v = value;
    let b = host_current_bits(current);
    assert({
        &&& ((v & !0x0cu8) | b) & 0x0cu8 == b
        &&& ((v & !0x0cu8) | b) & !0x0cu8 == v & !0x0cu8
    }) by (bit_vector)
        requires
            b == 0x04 || b == 0x08 || b == 0x0c,
    ;
}

/// The `TXCC` bit of `SWITCHES1` that routes BMC transmission to a pin.
pub open spec fn tx_cc_bit(pin: CcPin) -> u8 {
    match pin {
        CcPin::Cc1 => SWITCHES1_TXCC1,
        CcPin::Cc2 => SWITCHES1_TXCC2,
    }
}

/// `SWITCHES1` transmitting on the chosen pin; the reserved bit is cleared.
pub open spec fn tx_cc_value(value: u8, pin: CcPin) -> u8 {
    (value & (SWITCHES1_RW_MASK & !(SWITCHES1_TXCC1 | SWITCHES1_TXCC2))) | tx_cc_bit(pin)
}

/// Compute `SWITCHES1` transmitting on the chosen pin.
pub fn select_tx_cc(value: u8, pin: CcPin) -> (next: u8)
    ensures
        next == tx_cc_value(value, pin),
{
    let bit: u8 = match pin {
        CcPin::Cc1 => SWITCHES1_TXCC1,
        CcPin::Cc2 => SWITCHES1_TXCC2,
    };
    (value & (SWITCHES1_RW_MASK & !(SWITCHES1_TXCC1 | SWITCHES1_TXCC2))) | bit
}

/// Transmission is routed to exactly the chosen pin; header fields are kept and the reserved
/// bit is cleared.
pub proof fn lemma_tx_cc_fields(value: u8, pin: CcPin)
    ensures
        tx_cc_value(value, pin) & 0x03u8 == tx_cc_bit(pin),
        tx_cc_value(value, pin) & 0xf4u8 == value & 0xf4u8,
        tx_cc_value(value, pin) & 0x08u8 == 0,
{
    assert((SWITCHES1_RW_MASK & !(SWITCHES1_TXCC1 | SWITCHES1_TXCC2)) == (0xf7u8 & !0x03u8))
        by (bit_vector);
    let v = value;
    let b = tx_cc_bit(pin);
    assert({
        &&& ((v & (0xf7u8 & !0x03u8)) | b) & 0x03u8 == b
        &&& ((v & (0xf7u8 & !0x03u8)) | b) & 0xf4u8 == v & 0xf4u8
        &&& ((v & (0xf7u8 & !0x03u8)) | b) & 0x08u8 == 0
    }) by (bit_vector)
        requires
            b == 1 || b == 2,
    ;
}

/// The `MODE` field of `CONTROL2` for a toggle mode.
pub open spec fn toggle_mode_bits(mode: ToggleMode) -> u8 {
    match mode {
        ToggleMode::Source => CONTROL2_MODE_DFP,
        ToggleMode::Sink => CONTROL2_MODE_UFP,
        ToggleMode::DualRole => CONTROL2_MODE_DRP,
    }
}

/// `CONTROL2` toggling in the chosen mode; the reserved bit is cleared.
pub open spec fn start_toggle_value(value: u8, mode: ToggleMode) -> u8 {
    (value & CONTROL2_RW_MASK & !0x07u8) | toggle_mode_bits(mode) | CONTROL2_TOGGLE
}

/// Compute `CONTROL2` toggling in the chosen mode.
pub fn start_toggle_bits(value: u8, mode: ToggleMode) -> (next: u8)
    ensures
        next == start_toggle_value(value, mode),
{
    let mode_bits: u8 = match mode {
        ToggleMode::Source => CONTROL2_MODE_DFP,
        ToggleMode::Sink => CONTROL2_MODE_UFP,
        ToggleMode::DualRole => CONTROL2_MODE_DRP,
    };
    (value & CONTROL2_RW_MASK & !0x07u8) | mode_bits | CONTROL2_TOGGLE
}

/// `CONTROL2` with toggling stopped and every other documented bit kept.
pub open spec fn stop_toggle_value(value: u8) -> u8 {
    (value & CONTROL2_RW_MASK) & !CONTROL2_TOGGLE
}

/// Compute `CONTROL2` with toggling stopped.
pub fn stop_toggle_bits(value: u8) -> (next: u8)
    ensures
        next == stop_toggle_value(value),
{
    (value & CONTROL2_RW_MASK) & !CONTROL2_TOGGLE
}

/// Starting a toggle sets `TOGGLE` and exactly the mode's `MODE` bits and keeps the
/// power-saving and wake settings; stopping it afterwards clears only `TOGGLE`, so the
/// selected mode is retained.
pub proof fn lemma_toggle_fields(value: u8, mode: ToggleMode)
    ensures
        start_toggle_value(value, mode) & 0x07u8 == toggle_mode_bits(mode) | 0x01u8,
        start_toggle_value(value, mode) & 0xe8u8 == value & 0xe8u8,
        start_toggle_value(value, mode) & 0x10u8 == 0,
        stop_toggle_value(start_toggle_value(value, mode)) & 0x01u8 == 0,
        stop_toggle_value(start_toggle_value(value, mode)) & 0x06u8 == toggle_mode_bits(mode),
        stop_toggle_value(start_toggle_value(value, mode)) & 0xe8u8 == value & 0xe8u8,
{
    let v = value;
    let m = toggle_mode_bits(mode);
    assert({
        let s = (v & 0xefu8 & !0x07u8) | m | 0x01u8;
        let t = (s & 0xefu8) & !0x01u8;
        &&& s & 0x07u8 == m | 0x01u8
        &&& s & 0xe8u8 == v & 0xe8u8
        &&& s & 0x10u8 == 0
        &&& t & 0x01u8 == 0
        &&& t & 0x06u8 == m
        &&& t & 0xe8u8 == v & 0xe8u8
    }) by (bit_vector)
        requires
            m == 0x06 || m == 0x04 || m == 0x02,
    ;
}

/// `CONTROL0` with the transmit FIFO flushed: the retained settings are kept, and the
/// transmit-start command and reserved bits are cleared.
pub open spec fn flush_tx_value(value: u8) -> u8 {
    (value & CONTROL0_RW_MASK) | CONTROL0_TX_FLUSH
}

/// Compute `CONTROL0` with the transmit FIFO flush command.
pub fn flush_tx_bits(value: u8) -> (next: u8)
    ensures
        next == flush_tx_value(value),
{
    (value & CONTROL0_RW_MASK) | CONTROL0_TX_FLUSH
}

/// `CONTROL1` with the receive FIFO flushed: the SOP enables and `BIST_MODE2` are kept and the
/// reserved bits cleared.
pub open spec fn flush_rx_value(value: u8) -> u8 {
    (value & CONTROL1_RW_MASK) | CONTROL1_RX_FLUSH
}

/// Compute `CONTROL1` with the receive FIFO flush command.
pub fn flush_rx_bits(value: u8) -> (next: u8)
    ensures
        next == flush_rx_value(value),
{
    (value & CONTROL1_RW_MASK) | CONTROL1_RX_FLUSH
}

/// A flush sets only its flush command: the interrupt mask, Rp current and preamble settings
/// (transmit side) and the SOP enables and BIST mode (receive side) are kept, while
/// `TX_START` and all reserved bits are cleared.
pub proof fn lemma_flush_fields(value: u8)
    ensures
        flush_tx_value(value) & 0x40u8 == 0x40u8,
        flush_tx_value(value) & 0x2eu8 == value & 0x2eu8,
        flush_tx_value(value) & 0x91u8 == 0,
        flush_rx_value(value) & 0x04u8 == 0x04u8,
        flush_rx_value(value) & 0x73u8 == value & 0x73u8,
        flush_rx_value(value) & 0x88u8 == 0,
{
    let v = value;
    assert({
        &&& ((v & 0x2eu8) | 0x40u8) & 0x40u8 == 0x40u8
        &&& ((v & 0x2eu8) | 0x40u8) & 0x2eu8 == v & 0x2eu8
        &&& ((v & 0x2eu8) | 0x40u8) & 0x91u8 == 0
        &&& ((v & 0x73u8) | 0x04u8) & 0x04u8 == 0x04u8
        &&& ((v & 0x73u8) | 0x04u8) & 0x73u8 == v & 0x73u8
        &&& ((v & 0x73u8) | 0x04u8) & 0x88u8 == 0
    }) by (bit_vector);
}

/// One read-modify-write edit of a register value.
#[derive(Clone, Copy)]
pub enum Edit {
    /// `SWITCHES1` header roles, GoodCRC revision and automatic GoodCRC.
    PhyHeader(PhyConfig),
    /// `CONTROL1` SOP enables.
    ReceiveSop(ReceiveSopMask),
    /// `CONTROL3` retry and reset automation.
    Automation(PhyConfig),
    /// `SWITCHES0` termination of one CC pin.
    CcPull(CcPin, CcPull),
    /// `SWITCHES0` VCONN routing.
    Vconn(Option<CcPin>),
    /// `SWITCHES0` measurement routing.
    MeasureCc(Option<CcPin>),
    /// `MEASURE` without VBUS measurement.
    EndVbusMeasurement,
    /// `MEASURE` measuring VBUS at a threshold.
    MeasureVbus(VbusThreshold),
    /// `CONTROL0` Rp current.
    HostCurrent(HostCurrent),
    /// `SWITCHES1` transmit pin.
    TxCc(CcPin),
    /// `CONTROL2` toggling in a mode.
    StartToggle(ToggleMode),
    /// `CONTROL2` without toggling.
    StopToggle,
    /// `CONTROL0` transmit FIFO flush.
    FlushTx,
    /// `CONTROL1` receive FIFO flush.
    FlushRx,
}

/// The value an edit writes back after reading `value`.
pub open spec fn edit_value(edit: Edit, value: u8) -> u8 {
    match edit {
        Edit::PhyHeader(config) => phy_header_value(value, config),
        Edit::ReceiveSop(mask) => receive_sop_value(value, mask),
        Edit::Automation(config) => automation_value(value, config),
        Edit::CcPull(pin, pull) => cc_pull_value(value, pin, pull),
        Edit::Vconn(pin) => vconn_value(value, pin),
        Edit::MeasureCc(pin) => measure_cc_value(value, pin),
        Edit::EndVbusMeasurement => end_vbus_measurement_value(value),
        Edit::MeasureVbus(threshold) => measure_vbus_value(value, threshold),
        Edit::HostCurrent(current) => host_current_value(value, current),
        Edit::TxCc(pin) => tx_cc_value(value, pin),
        Edit::StartToggle(mode) => start_toggle_value(value, mode),
        Edit::StopToggle => stop_toggle_value(value),
        Edit::FlushTx => flush_tx_value(value),
        Edit::FlushRx => flush_rx_value(value),
    }
}

/// The register each edit reads and writes back.
pub open spec fn edit_register(edit: Edit) -> Register {
    match edit {
        Edit::PhyHeader(_) | Edit::TxCc(_) => Register::Switches1,
        Edit::ReceiveSop(_) | Edit::FlushRx => Register::Control1,
        Edit::Automation(_) => Register::Control3,
        Edit::CcPull(..) | Edit::Vconn(_) | Edit::MeasureCc(_) => Register::Switches0,
        Edit::EndVbusMeasurement | Edit::MeasureVbus(_) => Register::Measure,
        Edit::HostCurrent(_) | Edit::FlushTx => Register::Control0,
        Edit::StartToggle(_) | Edit::StopToggle => Register::Control2,
    }
}

/// The reserved bits of each register that the driver edits.
pub open spec fn reserved_bits(register: Register) -> u8 {
    match register {
        Register::Switches1 => 0x08,
        Register::Measure => 0x80,
        Register::Control0 => 0x90,
        Register::Control1 => 0x88,
        Register::Control2 => 0x10,
        Register::Control3 => 0x80,
        _ => 0,
    }
}

/// No edit ever sets a reserved bit of its register: a read-modify-write either clears the
/// reserved bits or writes back the (clear) reserved bits it read.
pub proof fn lemma_edits_never_set_reserved_bits(edit: Edit, value: u8)
    requires
        (value & reserved_bits(edit_register(edit))) == 0,
    ensures
        (edit_value(edit, value) & reserved_bits(edit_register(edit))) == 0,
{
    let v = value;
    let n = edit_value(edit, value);
    match edit {
        Edit::PhyHeader(config) => lemma_phy_header_fields(value, config),
        Edit::ReceiveSop(mask) => {
            lemma_receive_sop_fields(value, mask);
            assert((n & 0x8cu8) == 0 ==> (n & 0x88u8) == 0) by (bit_vector);
        },
        Edit::Automation(config) => {
            lemma_automation_fields(value, config);
            assert((n & 0xc0u8) == 0 ==> (n & 0x80u8) == 0) by (bit_vector);
        },
        Edit::CcPull(..) | Edit::Vconn(_) | Edit::MeasureCc(_) => {
            assert((n & 0u8) == 0) by (bit_vector);
        },
        Edit::EndVbusMeasurement => {
            assert((v & 0x80u8) == 0 ==> ((v & !0x40u8) & 0x80u8) == 0) by (bit_vector);
        },
        Edit::MeasureVbus(threshold) => {
            let t = threshold@;
            assert((v & 0x80u8) == 0 ==> (((v & !0x7fu8) | 0x40u8 | (t & 0x3fu8)) & 0x80u8) == 0)
                by (bit_vector);
        },
        Edit::HostCurrent(current) => {
            let b = host_current_bits(current);
            assert((v & 0x90u8) == 0 && (b == 0x04 || b == 0x08 || b == 0x0c) ==> (((v & !0x0cu8)
                | b) & 0x90u8) == 0) by (bit_vector);
        },
        Edit::TxCc(pin) => lemma_tx_cc_fields(value, pin),
        Edit::StartToggle(mode) => lemma_toggle_fields(value, mode),
        Edit::StopToggle => {
            assert((((v & 0xefu8) & !0x01u8) & 0x10u8) == 0) by (bit_vector);
        },
        Edit::FlushTx => {
            lemma_flush_fields(value);
            assert((n & 0x91u8) == 0 ==> (n & 0x90u8) == 0) by (bit_vector);
        },
        Edit::FlushRx => lemma_flush_fields(value),
    }
}

impl Edit {
    /// The register this edit reads and writes back.
    pub fn register(&self) -> (register: Register)
        ensures
            register == edit_register(*self),
    {
        match self {
            Edit::PhyHeader(_) | Edit::TxCc(_) => Register::Switches1,
            Edit::ReceiveSop(_) | Edit::FlushRx => Register::Control1,
            Edit::Automation(_) => Register::Control3,
            Edit::CcPull(..) | Edit::Vconn(_) | Edit::MeasureCc(_) => Register::Switches0,
            Edit::EndVbusMeasurement | Edit::MeasureVbus(_) => Register::Measure,
            Edit::HostCurrent(_) | Edit::FlushTx => Register::Control0,
            Edit::StartToggle(_) | Edit::StopToggle => Register::Control2,
        }
    }

    /// Compute the value this edit writes back after reading `value`.
    pub fn apply(&self, value: u8) -> (next: u8)
        ensures
            next == edit_value(*self, value),
    {
        match self {
            Edit::PhyHeader(config) => configure_switches1(value, *config),
            Edit::ReceiveSop(mask) => (value & CONTROL1_BIST_MODE2) | receive_sop_bits(*mask),
            Edit::Automation(config) => configure_control3(value, *config),
            Edit::CcPull(pin, pull) => apply_cc_pull(value, *pin, *pull),
            Edit::Vconn(pin) => select_vconn(value, *pin),
            Edit::MeasureCc(pin) => select_measure_cc(value, *pin),
            Edit::EndVbusMeasurement => leave_vbus_measurement(value),
            Edit::MeasureVbus(threshold) => measure_vbus(value, *threshold),
            Edit::HostCurrent(current) => select_host_current(value, *current),
            Edit::TxCc(pin) => select_tx_cc(value, *pin),
            Edit::StartToggle(mode) => start_toggle_bits(value, *mode),
            Edit::StopToggle => stop_toggle_bits(value),
            Edit::FlushTx => flush_tx_bits(value),
            Edit::FlushRx => flush_rx_bits(value),
        }
    }
}

/// The FUSB302B bit positions behind each typed setting: CC1 pull-up/pull-down are `SWITCHES0`
/// bits 6/0 and CC2 bits 7/1, VCONN on CC1/CC2 bits 4/5, measurement of CC1/CC2 bits 2/3;
/// `SWITCHES1` carries `TXCC1`/`TXCC2` in bits 0/1, `AUTO_CRC` in bit 2, `DATAROLE` in bit 4,
/// `SPECREV` in bits 6:5 (01 for PD 2.0, 10 for PD 3.0) and `POWERROLE` in bit 7; `HOST_CUR` is
/// `CONTROL0` bits 3:2 (01 default, 10 1.5 A, 11 3 A); `MODE` is `CONTROL2` bits 2:1 (11 source,
/// 10 sink, 01 dual role) next to `TOGGLE` in bit 0; `N_RETRIES` is `CONTROL3` bits 2:1 next to
/// `AUTO_RETRY` in bit 0, `AUTO_SOFTRESET` in bit 3 and `AUTO_HARDRESET` in bit 4.
pub proof fn lemma_field_encodings()
    ensures
        pull_up_bit(CcPin::Cc1) == 0x40u8 && pull_down_bit(CcPin::Cc1) == 0x01u8,
        pull_up_bit(CcPin::Cc2) == 0x80u8 && pull_down_bit(CcPin::Cc2) == 0x02u8,
        vconn_bit(Some(CcPin::Cc1)) == 0x10u8 && vconn_bit(Some(CcPin::Cc2)) == 0x20u8
            && vconn_bit(None) == 0,
        measure_cc_bit(Some(CcPin::Cc1)) == 0x04u8 && measure_cc_bit(Some(CcPin::Cc2)) == 0x08u8
            && measure_cc_bit(None) == 0,
        tx_cc_bit(CcPin::Cc1) == 0x01u8 && tx_cc_bit(CcPin::Cc2) == 0x02u8,
        SWITCHES1_AUTO_CRC == 0x04u8,
        data_role_bit(DataRole::Dfp) == 0x10u8 && data_role_bit(DataRole::Ufp) == 0,
        power_role_bit(PowerRole::Source) == 0x80u8 && power_role_bit(PowerRole::Sink) == 0,
        spec_rev_bits(PdRevision::Rev20) == 0x20u8 && spec_rev_bits(PdRevision::Rev30) == 0x40u8,
        host_current_bits(HostCurrent::Default) == 0x04u8 && host_current_bits(
            HostCurrent::Current1A5,
        ) == 0x08u8 && host_current_bits(HostCurrent::Current3A) == 0x0cu8,
        toggle_mode_bits(ToggleMode::Source) == 0x06u8 && toggle_mode_bits(ToggleMode::Sink)
            == 0x04u8 && toggle_mode_bits(ToggleMode::DualRole) == 0x02u8,
        retry_bits(RetryCount::Disabled) == 0 && retry_bits(RetryCount::One) == 0x02u8
            && retry_bits(RetryCount::Two) == 0x04u8 && retry_bits(RetryCount::Three) == 0x06u8,
        CONTROL3_AUTO_RETRY == 0x01u8 && CONTROL3_AUTO_SOFT_RESET == 0x08u8
            && CONTROL3_AUTO_HARD_RESET == 0x10u8,
{
}

/// Which register each edit reads and writes back: terminations, VCONN and measurement routing
/// live in `SWITCHES0` (0x02); header roles, GoodCRC and the transmit pin in `SWITCHES1` (0x03);
/// the VBUS comparator in `MEASURE` (0x04); Rp current and the transmit flush in `CONTROL0`
/// (0x06); SOP enables and the receive flush in `CONTROL1` (0x07); toggling in `CONTROL2`
/// (0x08); retry and reset automation in `CONTROL3` (0x09).
pub proof fn lemma_edit_registers(edit: Edit)
    ensures
        register_address(edit_register(edit)) == match edit {
            Edit::CcPull(..) | Edit::Vconn(_) | Edit::MeasureCc(_) => 0x02u8,
            Edit::PhyHeader(_) | Edit::TxCc(_) => 0x03u8,
            Edit::EndVbusMeasurement | Edit::MeasureVbus(_) => 0x04u8,
            Edit::HostCurrent(_) | Edit::FlushTx => 0x06u8,
            Edit::ReceiveSop(_) | Edit::FlushRx => 0x07u8,
            Edit::StartToggle(_) | Edit::StopToggle => 0x08u8,
            Edit::Automation(_) => 0x09u8,
        },
{
}

} // verus!
