//! The FUSB302B driver operations, each as the exact sequence of I2C transfers it performs.
//!
//! Every operation takes the replies to the transfers it has requested so far and returns the
//! next [`Step`]: another transfer, or its result. Running an operation to completion on a bus
//! reproduces the driver's register transactions one for one.

use vstd::prelude::*;

use crate::driver::Fusb302;
use crate::error::{Error, ReceiveError};
use crate::fields::Edit;
use crate::fifo::{
    hard_reset_tokens, hard_reset_tokens_spec, packet_tokens, received_sop, rx_sop_type,
    transmit_tokens,
};
use crate::packet::{PdPacket, PdPacketView, header_payload_len};
use crate::registers::{
    CcPin, CcPull, HostCurrent, POWER_ALL, POWER_TOGGLE_DETECTION, RESET_PD, RESET_SW, Register,
    STATUS0_COMP, STATUS1_RX_EMPTY, STATUS1_TX_EMPTY, ToggleMode, register_address,
};
use crate::transfer::{
    Access, Step, Transfer, finish, lemma_script_length, reply_at, reply_byte, script_from,
    script_request, script_width, step_requests,
};
use crate::types::{
    DeviceId, InterruptMasks, InterruptSnapshot, PhyConfig, Status, ToggleStatus, TransmitStatus,
    VbusComparator, VbusThreshold, togss_field, toggle_status_of, transmit_status_of,
};

verus! {

/// Read `DEVICE_ID`.
pub open spec fn device_id_script() -> Seq<Access> {
    seq![Access::Read(Register::DeviceId)]
}

/// Read the FUSB302B device ID.
pub fn device_id<I2C, E>(driver: &Fusb302<I2C>, replies: &Vec<Vec<u8>>) -> (step: Step<DeviceId, E>)
    ensures
        step_requests(step, driver.i2c_address(), script_request(device_id_script(), replies.deep_view())),
        step matches Step::Complete(r) ==> r matches Ok(id) && id@ == reply_at(
            replies.deep_view(),
            0,
            0,
        ),
{
    let script = script_from([Access::Read(Register::DeviceId)]);
    assert(script@ =~= device_id_script());
    finish(&script, driver.address(), replies, Ok(DeviceId::new(reply_byte(replies, 0, 0))))
}

/// Write the software-reset command.
pub open spec fn software_reset_script() -> Seq<Access> {
    seq![Access::Write(Register::Reset, RESET_SW)]
}

/// Reset the whole device.
pub fn software_reset<I2C, E>(driver: &Fusb302<I2C>, replies: &Vec<Vec<u8>>) -> (step: Step<(), E>)
    ensures
        step_requests(step, driver.i2c_address(), script_request(software_reset_script(), replies.deep_view())),
        step matches Step::Complete(r) ==> r == Ok::<(), Error<E>>(()),
{
    let script = script_from([Access::Write(Register::Reset, RESET_SW)]);
    assert(script@ =~= software_reset_script());
    finish(&script, driver.address(), replies, Ok(()))
}

/// Write the PD-reset command.
pub open spec fn pd_reset_script() -> Seq<Access> {
    seq![Access::Write(Register::Reset, RESET_PD)]
}

/// Reset the USB PD protocol engine without changing the I2C address.
pub fn pd_reset<I2C, E>(driver: &Fusb302<I2C>, replies: &Vec<Vec<u8>>) -> (step: Step<(), E>)
    ensures
        step_requests(step, driver.i2c_address(), script_request(pd_reset_script(), replies.deep_view())),
        step matches Step::Complete(r) ==> r == Ok::<(), Error<E>>(()),
{
    let script = script_from([Access::Write(Register::Reset, RESET_PD)]);
    assert(script@ =~= pd_reset_script());
    finish(&script, driver.address(), replies, Ok(()))
}

/// Software reset, then flush the transmit and the receive FIFO.
pub open spec fn init_script() -> Seq<Access> {
    seq![
        Access::Write(Register::Reset, RESET_SW),
        Access::Update(Edit::FlushTx),
        Access::Update(Edit::FlushRx),
    ]
}

/// Reset the device and flush both FIFOs without enabling CC, BMC, or automation.
pub fn init<I2C, E>(driver: &Fusb302<I2C>, replies: &Vec<Vec<u8>>) -> (step: Step<(), E>)
    ensures
        step_requests(step, driver.i2c_address(), script_request(init_script(), replies.deep_view())),
        step matches Step::Complete(r) ==> r == Ok::<(), Error<E>>(()),
{
    let script = script_from(
        [
            Access::Write(Register::Reset, RESET_SW),
            Access::Update(Edit::FlushTx),
            Access::Update(Edit::FlushRx),
        ],
    );
    assert(script@ =~= init_script());
    finish(&script, driver.address(), replies, Ok(()))
}

/// Power every block, then edit the PD header, SOP enables and automation registers.
pub open spec fn configure_phy_script(config: PhyConfig) -> Seq<Access> {
    seq![
        Access::Write(Register::Power, POWER_ALL),
        Access::Update(Edit::PhyHeader(config)),
        Access::Update(Edit::ReceiveSop(config.receive_sop)),
        Access::Update(Edit::Automation(config)),
    ]
}

/// Apply the explicit PD PHY configuration. This enables the BMC power domain only.
pub fn configure_phy<I2C, E>(driver: &Fusb302<I2C>, config: PhyConfig, replies: &Vec<Vec<u8>>) -> (step: Step<(), E>)
    ensures
        step_requests(step, driver.i2c_address(), script_request(configure_phy_script(config), replies.deep_view())),
        step matches Step::Complete(r) ==> r == Ok::<(), Error<E>>(()),
{
    let script = script_from(
        [
            Access::Write(Register::Power, POWER_ALL),
            Access::Update(Edit::PhyHeader(config)),
            Access::Update(Edit::ReceiveSop(config.receive_sop)),
            Access::Update(Edit::Automation(config)),
        ],
    );
    assert(script@ =~= configure_phy_script(config));
    finish(&script, driver.address(), replies, Ok(()))
}

/// Edit one pin's termination in `SWITCHES0`.
pub open spec fn set_cc_pull_script(pin: CcPin, pull: CcPull) -> Seq<Access> {
    seq![Access::Update(Edit::CcPull(pin, pull))]
}

/// Apply one CC pull resistor while preserving the other CC pin and unrelated bits.
pub fn set_cc_pull<I2C, E>(driver: &Fusb302<I2C>, pin: CcPin, pull: CcPull, replies: &Vec<Vec<u8>>) -> (step: Step<(), E>)
    ensures
        step_requests(step, driver.i2c_address(), script_request(set_cc_pull_script(pin, pull), replies.deep_view())),
        step matches Step::Complete(r) ==> r == Ok::<(), Error<E>>(()),
{
    let script = script_from([Access::Update(Edit::CcPull(pin, pull))]);
    assert(script@ =~= set_cc_pull_script(pin, pull));
    finish(&script, driver.address(), replies, Ok(()))
}

/// Edit the VCONN switches in `SWITCHES0`.
pub open spec fn set_vconn_script(pin: Option<CcPin>) -> Seq<Access> {
    seq![Access::Update(Edit::Vconn(pin))]
}

/// Select the CC pin used to supply VCONN, or disable VCONN.
pub fn set_vconn<I2C, E>(driver: &Fusb302<I2C>, pin: Option<CcPin>, replies: &Vec<Vec<u8>>) -> (step: Step<(), E>)
    ensures
        step_requests(step, driver.i2c_address(), script_request(set_vconn_script(pin), replies.deep_view())),
        step matches Step::Complete(r) ==> r == Ok::<(), Error<E>>(()),
{
    let script = script_from([Access::Update(Edit::Vconn(pin))]);
    assert(script@ =~= set_vconn_script(pin));
    finish(&script, driver.address(), replies, Ok(()))
}

/// Edit the measurement switches in `SWITCHES0`.
pub open spec fn set_measure_cc_script(pin: Option<CcPin>) -> Seq<Access> {
    seq![Access::Update(Edit::MeasureCc(pin))]
}

/// Select the CC pin connected to the FUSB302B measurement block, or disconnect both.
pub fn set_measure_cc<I2C, E>(driver: &Fusb302<I2C>, pin: Option<CcPin>, replies: &Vec<Vec<u8>>) -> (step: Step<(), E>)
    ensures
        step_requests(step, driver.i2c_address(), script_request(set_measure_cc_script(pin), replies.deep_view())),
        step matches Step::Complete(r) ==> r == Ok::<(), Error<E>>(()),
{
    let script = script_from([Access::Update(Edit::MeasureCc(pin))]);
    assert(script@ =~= set_measure_cc_script(pin));
    finish(&script, driver.address(), replies, Ok(()))
}

/// Clear `MEAS_VBUS`, then connect the measurement block to one CC pin.
pub open spec fn restore_cc_measurement_script(pin: CcPin) -> Seq<Access> {
    seq![
        Access::Update(Edit::EndVbusMeasurement),
        Access::Update(Edit::MeasureCc(Some(pin))),
    ]
}

/// Leave VBUS comparator mode and route the measurement block to one CC pin.
///
/// The FUSB302B requires both CC measurement switches to remain open while
/// `MEAS_VBUS` is enabled. Clear that mode before reconnecting a CC path so
/// BMC traffic can resume after a VBUS safety sample.
pub fn restore_cc_measurement<I2C, E>(driver: &Fusb302<I2C>, pin: CcPin, replies: &Vec<Vec<u8>>) -> (step: Step<(), E>)
    ensures
        step_requests(step, driver.i2c_address(), script_request(restore_cc_measurement_script(pin), replies.deep_view())),
        step matches Step::Complete(r) ==> r == Ok::<(), Error<E>>(()),
{
    let script = script_from(
        [
            Access::Update(Edit::EndVbusMeasurement),
            Access::Update(Edit::MeasureCc(Some(pin))),
        ],
    );
    assert(script@ =~= restore_cc_measurement_script(pin));
    finish(&script, driver.address(), replies, Ok(()))
}

/// Edit `HOST_CUR` in `CONTROL0`.
pub open spec fn set_host_current_script(current: HostCurrent) -> Seq<Access> {
    seq![Access::Update(Edit::HostCurrent(current))]
}

/// Select the Type-C Rp current advertisement without changing other controls.
pub fn set_host_current<I2C, E>(driver: &Fusb302<I2C>, current: HostCurrent, replies: &Vec<Vec<u8>>) -> (step: Step<(), E>)
    ensures
        step_requests(step, driver.i2c_address(), script_request(set_host_current_script(current), replies.deep_view())),
        step matches Step::Complete(r) ==> r == Ok::<(), Error<E>>(()),
{
    let script = script_from([Access::Update(Edit::HostCurrent(current))]);
    assert(script@ =~= set_host_current_script(current));
    finish(&script, driver.address(), replies, Ok(()))
}

/// Select the documented default `HOST_CUR` setting without changing other controls.
pub fn set_host_current_default<I2C, E>(driver: &Fusb302<I2C>, replies: &Vec<Vec<u8>>) -> (step: Step<(), E>)
    ensures
        step_requests(
            step,
            driver.i2c_address(),
            script_request(set_host_current_script(HostCurrent::Default), replies.deep_view()),
        ),
        step matches Step::Complete(r) ==> r == Ok::<(), Error<E>>(()),
{
    set_host_current(driver, HostCurrent::Default, replies)
}

/// Disconnect both CC measurement switches, then measure VBUS at the threshold.
pub open spec fn configure_vbus_measurement_script(threshold: VbusThreshold) -> Seq<Access> {
    seq![
        Access::Update(Edit::MeasureCc(None)),
        Access::Update(Edit::MeasureVbus(threshold)),
    ]
}

/// Route the measurement DAC/comparator to VBUS at the supplied threshold.
///
/// This disconnects both CC measurement switches as required by the
/// FUSB302B data sheet. Call [`read_vbus_comparator`] after this
/// operation to obtain the comparator state.
pub fn configure_vbus_measurement<I2C, E>(driver: &Fusb302<I2C>, threshold: VbusThreshold, replies: &Vec<Vec<u8>>) -> (step:
    Step<(), E>)
    ensures
        step_requests(
            step,
            driver.i2c_address(),
            script_request(configure_vbus_measurement_script(threshold), replies.deep_view()),
        ),
        step matches Step::Complete(r) ==> r == Ok::<(), Error<E>>(()),
{
    let script = script_from(
        [
            Access::Update(Edit::MeasureCc(None)),
            Access::Update(Edit::MeasureVbus(threshold)),
        ],
    );
    assert(script@ =~= configure_vbus_measurement_script(threshold));
    finish(&script, driver.address(), replies, Ok(()))
}

/// Read `STATUS0`.
pub open spec fn read_vbus_comparator_script() -> Seq<Access> {
    seq![Access::Read(Register::Status0)]
}

/// The comparator state that a `STATUS0` value reports in its `COMP` bit.
pub open spec fn comparator_of(status0: u8) -> VbusComparator {
    if (status0 & STATUS0_COMP) != 0 {
        VbusComparator::AboveThreshold
    } else {
        VbusComparator::AtOrBelowThreshold
    }
}

/// Read the VBUS comparator after [`configure_vbus_measurement`].
pub fn read_vbus_comparator<I2C, E>(driver: &Fusb302<I2C>, replies: &Vec<Vec<u8>>) -> (step: Step<VbusComparator, E>)
    ensures
        step_requests(step, driver.i2c_address(), script_request(read_vbus_comparator_script(), replies.deep_view())),
        step matches Step::Complete(r) ==> r == Ok::<VbusComparator, Error<E>>(
            comparator_of(reply_at(replies.deep_view(), 0, 0)),
        ),
{
    let script = script_from([Access::Read(Register::Status0)]);
    assert(script@ =~= read_vbus_comparator_script());
    let status = reply_byte(replies, 0, 0);
    let comparator = if (status & STATUS0_COMP) != 0 {
        VbusComparator::AboveThreshold
    } else {
        VbusComparator::AtOrBelowThreshold
    };
    finish(&script, driver.address(), replies, Ok(comparator))
}

/// Write `MASK`, `MASKA` and `MASKB`, in that order.
pub open spec fn set_interrupt_masks_script(masks: (u8, u8, u8)) -> Seq<Access> {
    seq![
        Access::Write(Register::Mask, masks.0),
        Access::Write(Register::MaskA, masks.1),
        Access::Write(Register::MaskB, masks.2),
    ]
}

/// Write all three interrupt-mask registers as one explicit PHY setting.
pub fn set_interrupt_masks<I2C, E>(driver: &Fusb302<I2C>, masks: InterruptMasks, replies: &Vec<Vec<u8>>) -> (step: Step<(), E>)
    ensures
        step_requests(step, driver.i2c_address(), script_request(set_interrupt_masks_script(masks@), replies.deep_view())),
        step matches Step::Complete(r) ==> r == Ok::<(), Error<E>>(()),
{
    let script = script_from(
        [
            Access::Write(Register::Mask, masks.primary()),
            Access::Write(Register::MaskA, masks.extended_a()),
            Access::Write(Register::MaskB, masks.extended_b()),
        ],
    );
    assert(script@ =~= set_interrupt_masks_script(masks@));
    finish(&script, driver.address(), replies, Ok(()))
}

/// Edit the transmit pin in `SWITCHES1`.
pub open spec fn set_tx_cc_script(pin: CcPin) -> Seq<Access> {
    seq![Access::Update(Edit::TxCc(pin))]
}

/// Select the CC pin used for PD BMC transmission.
pub fn set_tx_cc<I2C, E>(driver: &Fusb302<I2C>, pin: CcPin, replies: &Vec<Vec<u8>>) -> (step: Step<(), E>)
    ensures
        step_requests(step, driver.i2c_address(), script_request(set_tx_cc_script(pin), replies.deep_view())),
        step matches Step::Complete(r) ==> r == Ok::<(), Error<E>>(()),
{
    let script = script_from([Access::Update(Edit::TxCc(pin))]);
    assert(script@ =~= set_tx_cc_script(pin));
    finish(&script, driver.address(), replies, Ok(()))
}

/// Edit `CONTROL2` to toggle in a mode.
pub open spec fn start_toggle_script(mode: ToggleMode) -> Seq<Access> {
    seq![Access::Update(Edit::StartToggle(mode))]
}

/// Start FUSB302B autonomous Type-C toggling with an explicit role mode.
pub fn start_toggle<I2C, E>(driver: &Fusb302<I2C>, mode: ToggleMode, replies: &Vec<Vec<u8>>) -> (step: Step<(), E>)
    ensures
        step_requests(step, driver.i2c_address(), script_request(start_toggle_script(mode), replies.deep_view())),
        step matches Step::Complete(r) ==> r == Ok::<(), Error<E>>(()),
{
    let script = script_from([Access::Update(Edit::StartToggle(mode))]);
    assert(script@ =~= start_toggle_script(mode));
    finish(&script, driver.address(), replies, Ok(()))
}

/// Enter the toggle power mode, mask everything but `TOGDONE`, clear the interrupt latches,
/// then start toggling.
pub open spec fn arm_toggle_detection_script(mode: ToggleMode) -> Seq<Access> {
    seq![
        Access::Write(Register::Power, POWER_TOGGLE_DETECTION),
        Access::Write(Register::Mask, 0xff),
        Access::Write(Register::MaskA, 0xbf),
        Access::Write(Register::MaskB, 0x01),
        Access::ReadBlock(Register::InterruptA, 5),
        Access::Update(Edit::StartToggle(mode)),
    ]
}

/// Clear stale toggle state, enter the documented toggle power mode, and start toggling.
///
/// Poll [`take_toggle_result`] after this operation. A value returned by
/// [`toggle_status`] is not an attach indication by itself; it becomes
/// authoritative only after the FUSB302B has reported toggle completion.
pub fn arm_toggle_detection<I2C, E>(driver: &Fusb302<I2C>, mode: ToggleMode, replies: &Vec<Vec<u8>>) -> (step: Step<(), E>)
    ensures
        step_requests(step, driver.i2c_address(), script_request(arm_toggle_detection_script(mode), replies.deep_view())),
        step matches Step::Complete(r) ==> r == Ok::<(), Error<E>>(()),
{
    let masks = InterruptMasks::toggle_detection();
    let script = script_from(
        [
            Access::Write(Register::Power, POWER_TOGGLE_DETECTION),
            Access::Write(Register::Mask, masks.primary()),
            Access::Write(Register::MaskA, masks.extended_a()),
            Access::Write(Register::MaskB, masks.extended_b()),
            Access::ReadBlock(Register::InterruptA, 5),
            Access::Update(Edit::StartToggle(mode)),
        ],
    );
    assert(script@ =~= arm_toggle_detection_script(mode));
    finish(&script, driver.address(), replies, Ok(()))
}

/// Edit `CONTROL2` to stop toggling.
pub open spec fn stop_toggle_script() -> Seq<Access> {
    seq![Access::Update(Edit::StopToggle)]
}

/// Stop autonomous Type-C toggling while retaining the currently selected mode bits.
pub fn stop_toggle<I2C, E>(driver: &Fusb302<I2C>, replies: &Vec<Vec<u8>>) -> (step: Step<(), E>)
    ensures
        step_requests(step, driver.i2c_address(), script_request(stop_toggle_script(), replies.deep_view())),
        step matches Step::Complete(r) ==> r == Ok::<(), Error<E>>(()),
{
    let script = script_from([Access::Update(Edit::StopToggle)]);
    assert(script@ =~= stop_toggle_script());
    finish(&script, driver.address(), replies, Ok(()))
}

/// Read `STATUS1A`.
pub open spec fn toggle_status_script() -> Seq<Access> {
    seq![Access::Read(Register::Status1A)]
}

/// Read the raw autonomous Type-C toggle state from `STATUS1A`.
///
/// This status alone does not prove a partner is attached. Use
/// [`take_toggle_result`] to consume the FUSB302B `TOGDONE` event
/// before acting on it.
pub fn toggle_status<I2C, E>(driver: &Fusb302<I2C>, replies: &Vec<Vec<u8>>) -> (step: Step<ToggleStatus, E>)
    ensures
        step_requests(step, driver.i2c_address(), script_request(toggle_status_script(), replies.deep_view())),
        step matches Step::Complete(r) ==> r == Ok::<ToggleStatus, Error<E>>(
            toggle_status_of(togss_field(reply_at(replies.deep_view(), 0, 0))),
        ),
{
    let script = script_from([Access::Read(Register::Status1A)]);
    assert(script@ =~= toggle_status_script());
    finish(&script, driver.address(), replies, Ok(ToggleStatus::from_status1a(reply_byte(replies, 0, 0))))
}

/// Read the five consecutive registers from `INTERRUPTA` through `INTERRUPT` in one transfer.
pub open spec fn read_interrupts_script() -> Seq<Access> {
    seq![Access::ReadBlock(Register::InterruptA, 5)]
}

/// The interrupt snapshot held in the five bytes read from `INTERRUPTA` onward: `INTERRUPTA`,
/// `INTERRUPTB`, `STATUS0`, `STATUS1` and `INTERRUPT`.
pub open spec fn snapshot_of(block: Seq<Seq<u8>>, k: int) -> InterruptSnapshot {
    InterruptSnapshot {
        interrupt_a: reply_at(block, k, 0),
        interrupt_b: reply_at(block, k, 1),
        interrupt: reply_at(block, k, 4),
    }
}

fn snapshot_from(replies: &Vec<Vec<u8>>, k: usize) -> (snapshot: InterruptSnapshot)
    ensures
        snapshot == snapshot_of(replies.deep_view(), k as int),
{
    InterruptSnapshot {
        interrupt_a: reply_byte(replies, k, 0),
        interrupt_b: reply_byte(replies, k, 1),
        interrupt: reply_byte(replies, k, 4),
    }
}

/// Read all clear-on-read interrupt registers in one contiguous I2C read.
pub fn read_interrupts<I2C, E>(driver: &Fusb302<I2C>, replies: &Vec<Vec<u8>>) -> (step: Step<InterruptSnapshot, E>)
    ensures
        step_requests(step, driver.i2c_address(), script_request(read_interrupts_script(), replies.deep_view())),
        step matches Step::Complete(r) ==> r == Ok::<InterruptSnapshot, Error<E>>(
            snapshot_of(replies.deep_view(), 0),
        ),
{
    let script = script_from([Access::ReadBlock(Register::InterruptA, 5)]);
    assert(script@ =~= read_interrupts_script());
    finish(&script, driver.address(), replies, Ok(snapshot_from(replies, 0)))
}

/// Consume the completed PD-transmit outcome, if one is pending.
///
/// This reads and clears the FUSB302B interrupt latches. It reports a
/// retry failure only after the hardware exhausted its configured retry
/// count without receiving GoodCRC, so callers can distinguish FIFO
/// queuing from a packet accepted by the link partner.
pub fn take_transmit_status<I2C, E>(driver: &Fusb302<I2C>, replies: &Vec<Vec<u8>>) -> (step: Step<Option<TransmitStatus>, E>)
    ensures
        step_requests(step, driver.i2c_address(), script_request(read_interrupts_script(), replies.deep_view())),
        step matches Step::Complete(r) ==> r == Ok::<Option<TransmitStatus>, Error<E>>(
            transmit_status_of(reply_at(replies.deep_view(), 0, 0)),
        ),
{
    let script = script_from([Access::ReadBlock(Register::InterruptA, 5)]);
    assert(script@ =~= read_interrupts_script());
    finish(&script, driver.address(), replies, Ok(snapshot_from(replies, 0).transmit_status()))
}

/// What `take_toggle_result` requests: the interrupt latches; then, only when `TOGDONE` is
/// latched, `STATUS1A` followed by restoring full power.
pub open spec fn take_toggle_result_request(replies: Seq<Seq<u8>>) -> Option<(Seq<u8>, nat)> {
    if replies.len() == 0 {
        Some((seq![register_address(Register::InterruptA)], 5))
    } else if !snapshot_of(replies, 0).has_toggle_done() {
        None
    } else if replies.len() == 1 {
        Some((seq![register_address(Register::Status1A)], 1))
    } else if replies.len() == 2 {
        Some((seq![register_address(Register::Power), POWER_ALL], 0))
    } else {
        None
    }
}

/// Consume a completed autonomous Type-C toggle result, if one is pending.
///
/// This reads and clears the FUSB302B interrupt latches first. It reads
/// `STATUS1A` only when the typed `TOGDONE` event is present, preventing a
/// stale or in-progress toggle state from being treated as an attachment.
/// When a result is present, this also restores all PHY power domains so
/// the caller can configure the selected CC path and begin BMC traffic.
pub fn take_toggle_result<I2C, E>(driver: &Fusb302<I2C>, replies: &Vec<Vec<u8>>) -> (step: Step<Option<ToggleStatus>, E>)
    ensures
        step_requests(step, driver.i2c_address(), take_toggle_result_request(replies.deep_view())),
        step matches Step::Complete(r) ==> r == Ok::<Option<ToggleStatus>, Error<E>>(
            if snapshot_of(replies.deep_view(), 0).has_toggle_done() {
                Some(toggle_status_of(togss_field(reply_at(replies.deep_view(), 1, 0))))
            } else {
                None
            },
        ),
{
    if replies.len() == 0 {
        let mut write: Vec<u8> = Vec::new();
        write.push(Register::InterruptA.address());
        assert(write@ =~= seq![register_address(Register::InterruptA)]);
        return Step::Transfer(Transfer { address: driver.address(), write, read_len: 5 });
    }
    if !snapshot_from(replies, 0).toggle_done() {
        return Step::Complete(Ok(None));
    }
    if replies.len() == 1 {
        let mut write: Vec<u8> = Vec::new();
        write.push(Register::Status1A.address());
        assert(write@ =~= seq![register_address(Register::Status1A)]);
        return Step::Transfer(Transfer { address: driver.address(), write, read_len: 1 });
    }
    if replies.len() == 2 {
        let mut write: Vec<u8> = Vec::new();
        write.push(Register::Power.address());
        write.push(POWER_ALL);
        assert(write@ =~= seq![register_address(Register::Power), POWER_ALL]);
        return Step::Transfer(Transfer { address: driver.address(), write, read_len: 0 });
    }
    Step::Complete(Ok(Some(ToggleStatus::from_status1a(reply_byte(replies, 1, 0)))))
}

/// Edit `CONTROL0` and `CONTROL1` to flush both FIFOs.
pub open spec fn flush_fifos_script() -> Seq<Access> {
    seq![
        Access::Update(Edit::FlushTx),
        Access::Update(Edit::FlushRx),
    ]
}

/// Flush both hardware FIFOs.
pub fn flush_fifos<I2C, E>(driver: &Fusb302<I2C>, replies: &Vec<Vec<u8>>) -> (step: Step<(), E>)
    ensures
        step_requests(step, driver.i2c_address(), script_request(flush_fifos_script(), replies.deep_view())),
        step matches Step::Complete(r) ==> r == Ok::<(), Error<E>>(()),
{
    let script = script_from(
        [
            Access::Update(Edit::FlushTx),
            Access::Update(Edit::FlushRx),
        ],
    );
    assert(script@ =~= flush_fifos_script());
    finish(&script, driver.address(), replies, Ok(()))
}

/// Read `STATUS0A`, `STATUS1A`, `STATUS0` and `STATUS1`, one register at a time.
pub open spec fn read_status_script() -> Seq<Access> {
    seq![
        Access::Read(Register::Status0A),
        Access::Read(Register::Status1A),
        Access::Read(Register::Status0),
        Access::Read(Register::Status1),
    ]
}

/// Read a non-destructive four-register status snapshot.
pub fn read_status<I2C, E>(driver: &Fusb302<I2C>, replies: &Vec<Vec<u8>>) -> (step: Step<Status, E>)
    ensures
        step_requests(step, driver.i2c_address(), script_request(read_status_script(), replies.deep_view())),
        step matches Step::Complete(r) ==> r == Ok::<Status, Error<E>>(
            Status {
                status0a: reply_at(replies.deep_view(), 0, 0),
                status1a: reply_at(replies.deep_view(), 1, 0),
                status0: reply_at(replies.deep_view(), 2, 0),
                status1: reply_at(replies.deep_view(), 3, 0),
            },
        ),
{
    let script = script_from(
        [
            Access::Read(Register::Status0A),
            Access::Read(Register::Status1A),
            Access::Read(Register::Status0),
            Access::Read(Register::Status1),
        ],
    );
    assert(script@ =~= read_status_script());
    let status = Status {
        status0a: reply_byte(replies, 0, 0),
        status1a: reply_byte(replies, 1, 0),
        status0: reply_byte(replies, 2, 0),
        status1: reply_byte(replies, 3, 0),
    };
    finish(&script, driver.address(), replies, Ok(status))
}

/// Whether a `STATUS1` value reports an empty transmit FIFO.
pub open spec fn tx_fifo_empty(status1: u8) -> bool {
    (status1 & STATUS1_TX_EMPTY) != 0
}

/// What a FIFO transmission requests: `STATUS1`; then, only when the transmit FIFO is empty,
/// one write of the tokens to `FIFO`.
pub open spec fn fifo_write_request(tokens: Seq<u8>, replies: Seq<Seq<u8>>) -> Option<
    (Seq<u8>, nat),
> {
    if replies.len() == 0 {
        Some((seq![register_address(Register::Status1)], 1))
    } else if !tx_fifo_empty(reply_at(replies, 0, 0)) {
        None
    } else if replies.len() == 1 {
        Some((seq![register_address(Register::Fifo)] + tokens, 0))
    } else {
        None
    }
}

/// The result of a FIFO transmission: refused when `STATUS1` reported the transmit FIFO busy.
pub open spec fn fifo_write_result<E>(replies: Seq<Seq<u8>>) -> Result<(), Error<E>> {
    if tx_fifo_empty(reply_at(replies, 0, 0)) {
        Ok(())
    } else {
        Err(Error::TransmitFifoBusy)
    }
}

fn write_fifo_step<E>(address: u8, tokens: &Vec<u8>, replies: &Vec<Vec<u8>>) -> (step: Step<(), E>)
    ensures
        step_requests(step, address, fifo_write_request(tokens@, replies.deep_view())),
        step matches Step::Complete(r) ==> r == fifo_write_result::<E>(replies.deep_view()),
{
    if replies.len() == 0 {
        let mut write: Vec<u8> = Vec::new();
        write.push(Register::Status1.address());
        assert(write@ =~= seq![register_address(Register::Status1)]);
        return Step::Transfer(Transfer { address, write, read_len: 1 });
    }
    if (reply_byte(replies, 0, 0) & STATUS1_TX_EMPTY) == 0 {
        return Step::Complete(Err(Error::TransmitFifoBusy));
    }
    if replies.len() == 1 {
        let mut write: Vec<u8> = Vec::new();
        write.push(Register::Fifo.address());
        let mut i: usize = 0;
        while i < tokens.len()
            invariant
                i <= tokens@.len(),
                write@ == seq![register_address(Register::Fifo)] + tokens@.subrange(0, i as int),
            decreases tokens@.len() - i,
        {
            write.push(tokens[i]);
            i = i + 1;
            assert(tokens@.subrange(0, i as int) =~= tokens@.subrange(0, i - 1).push(tokens@[i - 1]));
        }
        assert(tokens@.subrange(0, tokens@.len() as int) =~= tokens@);
        return Step::Transfer(Transfer { address, write, read_len: 0 });
    }
    Step::Complete(Ok(()))
}

/// Send one physical USB PD packet through the token FIFO.
///
/// The packet's payload always matches its header's data-object count, so no malformed packet
/// can reach the FIFO.
pub fn transmit<I2C, E>(driver: &Fusb302<I2C>, packet: &PdPacket, replies: &Vec<Vec<u8>>) -> (step: Step<(), E>)
    ensures
        packet@.payload.len() == header_payload_len(packet@.header),
        step_requests(step, driver.i2c_address(), fifo_write_request(packet_tokens(packet@), replies.deep_view())),
        step matches Step::Complete(r) ==> r == fifo_write_result::<E>(replies.deep_view()),
{
    let _ = packet.payload();
    let tokens = transmit_tokens(packet);
    write_fifo_step(driver.address(), &tokens, replies)
}

/// Send an explicit USB PD hard-reset ordered set.
pub fn transmit_hard_reset<I2C, E>(driver: &Fusb302<I2C>, replies: &Vec<Vec<u8>>) -> (step: Step<(), E>)
    ensures
        step_requests(step, driver.i2c_address(), fifo_write_request(hard_reset_tokens_spec(), replies.deep_view())),
        step matches Step::Complete(r) ==> r == fifo_write_result::<E>(replies.deep_view()),
{
    let tokens = hard_reset_tokens();
    write_fifo_step(driver.address(), &tokens, replies)
}

/// Whether a `STATUS1` value reports an empty receive FIFO.
pub open spec fn rx_fifo_empty(status1: u8) -> bool {
    (status1 & STATUS1_RX_EMPTY) != 0
}

/// The header carried little-endian in bytes 1 and 2 of a received frame's first read.
pub open spec fn received_header(replies: Seq<Seq<u8>>) -> u16 {
    (reply_at(replies, 1, 1) + reply_at(replies, 1, 2) * 256) as u16
}

/// What `receive` requests: `STATUS1`; then, unless the receive FIFO is empty, the SOP token
/// and header; then, unless the token is malformed, the payload and CRC that the header
/// announces.
pub open spec fn receive_request(replies: Seq<Seq<u8>>) -> Option<(Seq<u8>, nat)> {
    if replies.len() == 0 {
        Some((seq![register_address(Register::Status1)], 1))
    } else if rx_fifo_empty(reply_at(replies, 0, 0)) {
        None
    } else if replies.len() == 1 {
        Some((seq![register_address(Register::Fifo)], 3))
    } else if received_sop(reply_at(replies, 1, 0)) is None {
        None
    } else if replies.len() == 2 {
        Some(
            (seq![register_address(Register::Fifo)], header_payload_len(received_header(replies))
                + 4),
        )
    } else {
        None
    }
}

/// The packet a completed receive returns: the SOP type and header of the first read, and the
/// announced number of leading bytes of the second; its trailing CRC bytes are discarded.
pub open spec fn received_packet(replies: Seq<Seq<u8>>) -> PdPacketView {
    let header = received_header(replies);
    PdPacketView {
        sop: received_sop(reply_at(replies, 1, 0)).unwrap(),
        header,
        payload: Seq::new(header_payload_len(header), |j: int| reply_at(replies, 2, j)),
    }
}

/// Read one complete received physical packet, if the receive FIFO is non-empty.
///
/// A full receive FIFO still contains readable packet data and is drained normally.
pub fn receive<I2C, E>(driver: &Fusb302<I2C>, replies: &Vec<Vec<u8>>) -> (step: Step<Option<PdPacket>, E>)
    ensures
        step_requests(step, driver.i2c_address(), receive_request(replies.deep_view())),
        step matches Step::Complete(r) ==> {
            let rs = replies.deep_view();
            if rx_fifo_empty(reply_at(rs, 0, 0)) {
                r == Ok::<Option<PdPacket>, Error<E>>(None)
            } else if received_sop(reply_at(rs, 1, 0)) is None {
                r == Err::<Option<PdPacket>, Error<E>>(
                    Error::Receive(ReceiveError::InvalidSopToken(reply_at(rs, 1, 0))),
                )
            } else {
                r matches Ok(Some(p)) && p@ == received_packet(rs)
            }
        },
{
    let ghost rs = replies.deep_view();
    if replies.len() == 0 {
        let mut write: Vec<u8> = Vec::new();
        write.push(Register::Status1.address());
        assert(write@ =~= seq![register_address(Register::Status1)]);
        return Step::Transfer(Transfer { address: driver.address(), write, read_len: 1 });
    }
    if (reply_byte(replies, 0, 0) & STATUS1_RX_EMPTY) != 0 {
        return Step::Complete(Ok(None));
    }
    if replies.len() == 1 {
        let mut write: Vec<u8> = Vec::new();
        write.push(Register::Fifo.address());
        assert(write@ =~= seq![register_address(Register::Fifo)]);
        return Step::Transfer(Transfer { address: driver.address(), write, read_len: 3 });
    }
    let token = reply_byte(replies, 1, 0);
    let sop = match rx_sop_type(token) {
        Some(sop) => sop,
        None => {
            return Step::Complete(Err(Error::Receive(ReceiveError::InvalidSopToken(token))));
        },
    };
    let header: u16 = reply_byte(replies, 1, 1) as u16 + (reply_byte(replies, 1, 2) as u16) * 256;
    let payload_len = PdPacket::payload_len_from_header(header);
    if replies.len() == 2 {
        let mut write: Vec<u8> = Vec::new();
        write.push(Register::Fifo.address());
        assert(write@ =~= seq![register_address(Register::Fifo)]);
        return Step::Transfer(Transfer { address: driver.address(), write, read_len: payload_len + 4 });
    }
    let mut payload = [0u8; 28];
    let mut i: usize = 0;
    while i < payload_len
        invariant
            i <= payload_len <= 28,
            payload@.len() == 28,
            rs == replies.deep_view(),
            forall|k: int| 0 <= k < i ==> payload@[k] == reply_at(rs, 2, k),
        decreases payload_len - i,
    {
        payload[i] = reply_byte(replies, 2, i);
        i = i + 1;
    }
    let packet = PdPacket::from_fifo(sop, header, payload);
    assert(packet@.payload =~= received_packet(rs).payload);
    Step::Complete(Ok(Some(packet)))
}

/// `read_interrupts` is one contiguous transfer: a single write of the `INTERRUPTA` address
/// followed by a five-byte read, after which it is complete. No clear-on-read register is ever
/// read on its own, so no latched event can be lost between fragmented reads.
pub proof fn lemma_read_interrupts_is_one_transfer(replies: Seq<Seq<u8>>)
    ensures
        script_request(read_interrupts_script(), replies) == if replies.len() == 0 {
            Some((seq![0x3eu8], 5nat))
        } else {
            None
        },
{
    reveal_with_fuel(script_request, 2);
}

/// `read_status` only reads the four status registers, none of which clears on read.
pub proof fn lemma_read_status_reads_only_status_registers(i: int)
    requires
        0 <= i < read_status_script().len(),
    ensures
        read_status_script()[i] matches Access::Read(r) && (r == Register::Status0A || r
            == Register::Status1A || r == Register::Status0 || r == Register::Status1),
{
}

/// `init` writes the software reset, then flushes both FIFOs by read-modify-write, and does
/// nothing else: it keeps every `CONTROL0` and `CONTROL1` setting it reads (Rp current,
/// interrupt mask, preamble, SOP enables, BIST mode) and touches no CC, VCONN, GoodCRC, retry or
/// reset-automation register.
pub proof fn lemma_init_selects_nothing(replies: Seq<Seq<u8>>)
    ensures
        replies.len() == 0 ==> script_request(init_script(), replies) == Some(
            (seq![0x0cu8, RESET_SW], 0nat),
        ),
        replies.len() == 1 ==> script_request(init_script(), replies) == Some((seq![0x06u8], 1nat)),
        replies.len() == 2 ==> (script_request(init_script(), replies) matches Some((w, n)) && n
            == 0 && w.len() == 2 && w[0] == 0x06 && (w[1] & 0x2eu8) == (reply_at(replies, 1, 0)
            & 0x2eu8) && (w[1] & 0x40u8) != 0 && (w[1] & 0x01u8) == 0),
        replies.len() == 3 ==> script_request(init_script(), replies) == Some((seq![0x07u8], 1nat)),
        replies.len() == 4 ==> (script_request(init_script(), replies) matches Some((w, n)) && n
            == 0 && w.len() == 2 && w[0] == 0x07 && (w[1] & 0x73u8) == (reply_at(replies, 3, 0)
            & 0x73u8) && (w[1] & 0x04u8) != 0),
        replies.len() >= 5 ==> script_request(init_script(), replies) is None,
{
    reveal_with_fuel(script_request, 4);
    let s = init_script();
    assert(s.drop_first()[0] == Access::Update(Edit::FlushTx));
    assert(s.drop_first().drop_first()[0] == Access::Update(Edit::FlushRx));
    assert(s.drop_first().drop_first().drop_first().len() == 0);
    if replies.len() >= 1 {
        let r1 = replies.skip(1);
        if replies.len() >= 3 {
            assert(r1.skip(2) =~= replies.skip(3));
            if replies.len() == 4 {
                assert(reply_at(replies.skip(3), 0, 0) == reply_at(replies, 3, 0));
                crate::fields::lemma_flush_fields(reply_at(replies, 3, 0));
            }
        } else if replies.len() == 2 {
            let v = reply_at(replies, 1, 0);
            assert(reply_at(r1, 0, 0) == v);
            crate::fields::lemma_flush_fields(v);
            let x = crate::fields::flush_tx_value(v);
            assert((x & 0x91u8) == 0 ==> (x & 0x01u8) == 0) by (bit_vector);
            assert(script_request(s, replies) == Some((seq![0x06u8, x], 0nat)));
        }
    }
}

/// The FIFO is written only after `STATUS1` reported the transmit FIFO empty, and then with
/// exactly the given tokens; a busy FIFO ends the operation with `TransmitFifoBusy` before any
/// FIFO write.
pub proof fn lemma_fifo_written_only_when_empty<E>(tokens: Seq<u8>, replies: Seq<Seq<u8>>)
    ensures
        fifo_write_request(tokens, replies) matches Some((w, n)) ==> (w[0] == register_address(
            Register::Fifo,
        ) ==> replies.len() == 1 && tx_fifo_empty(reply_at(replies, 0, 0)) && w == seq![0x43u8]
            + tokens && n == 0),
        replies.len() >= 1 && !tx_fifo_empty(reply_at(replies, 0, 0)) ==> fifo_write_request(
            tokens,
            replies,
        ) is None && fifo_write_result::<E>(replies) == Err::<(), Error<E>>(
            Error::TransmitFifoBusy,
        ),
{
}

/// A full receive FIFO (`RX_FULL` set, `RX_EMPTY` clear) is drained like any other non-empty
/// FIFO: the next transfer reads the frame, and a receive never reports `FifoOverflow`.
pub proof fn lemma_full_receive_fifo_is_drained(replies: Seq<Seq<u8>>)
    requires
        replies.len() == 1,
        (reply_at(replies, 0, 0) & 0x10u8) != 0,
        (reply_at(replies, 0, 0) & STATUS1_RX_EMPTY) == 0,
    ensures
        receive_request(replies) == Some((seq![0x43u8], 3nat)),
{
}

/// `take_toggle_result` reads `STATUS1A`, and restores full power, only after the interrupt
/// latches reported `TOGDONE`; without it the operation ends after the one interrupt read.
pub proof fn lemma_toggle_state_read_only_after_togdone(replies: Seq<Seq<u8>>)
    ensures
        replies.len() >= 1 && !snapshot_of(replies, 0).has_toggle_done() ==> take_toggle_result_request(
            replies,
        ) is None,
        take_toggle_result_request(replies) matches Some((w, _)) ==> (w[0] != register_address(
            Register::InterruptA,
        ) ==> snapshot_of(replies, 0).has_toggle_done()),
{
}

/// A configuration built from the defaults enables no automation: GoodCRC generation, retries
/// and automatic resets are all off, hardware GoodCRC would carry `SPECREV = 01` (USB PD 2.0),
/// and no cable SOP variant is received.
pub proof fn lemma_default_config_is_inert(config: PhyConfig, switches1: u8, control1: u8, control3: u8)
    requires
        config.pd_revision == crate::registers::PdRevision::Rev20,
        !config.auto_goodcrc,
        config.retry_count == crate::types::RetryCount::Disabled,
        !config.auto_soft_reset,
        !config.auto_hard_reset,
        config.receive_sop@ == 0,
    ensures
        (crate::fields::phy_header_value(switches1, config) & 0x64u8) == 0x20u8,
        (crate::fields::receive_sop_value(control1, config.receive_sop) & 0x63u8) == 0,
        (crate::fields::automation_value(control3, config) & 0x1fu8) == 0,
{
    crate::fields::lemma_phy_header_fields(switches1, config);
    crate::fields::lemma_receive_sop_fields(control1, config.receive_sop);
    crate::fields::lemma_automation_fields(control3, config);
    let n = crate::fields::phy_header_value(switches1, config);
    assert(((n & 0x60u8) == 0x20u8 && (n & 0x04u8) == 0) ==> (n & 0x64u8) == 0x20u8) by (bit_vector);
    let m = crate::fields::receive_sop_value(control1, config.receive_sop);
    assert(((m & 0x01u8) == 0 && (m & 0x02u8) == 0 && (m & 0x20u8) == 0 && (m & 0x40u8) == 0) ==> (m
        & 0x63u8) == 0) by (bit_vector);
    assert((0u8 & 0x02u8) == 0 && (0u8 & 0x04u8) == 0 && (0u8 & 0x08u8) == 0 && (0u8 & 0x10u8) == 0)
        by (bit_vector);
    let a = crate::fields::automation_value(control3, config);
    assert(((a & 0x10u8) == 0 && (a & 0x08u8) == 0 && (a & 0x06u8) == 0 && (a & 0x01u8) == 0) ==> (a
        & 0x1fu8) == 0) by (bit_vector);
}

/// Receiving decodes exactly what the FIFO holds: when `STATUS1` reports data and the FIFO
/// holds a valid SOP token, the little-endian header and the announced payload followed by the
/// four CRC bytes, `receive` asks for nothing more and returns that very packet.
pub proof fn lemma_receive_recovers_packet(
    packet: PdPacketView,
    status1: u8,
    token: u8,
    crc: Seq<u8>,
)
    requires
        !rx_fifo_empty(status1),
        received_sop(token) == Some(packet.sop),
        packet.payload.len() == header_payload_len(packet.header),
        crc.len() == 4,
    ensures
        ({
            let replies = seq![
                seq![status1],
                seq![token, (packet.header & 0xff) as u8, (packet.header >> 8u16) as u8],
                packet.payload + crc,
            ];
            &&& receive_request(replies.take(1)) == Some((seq![0x43u8], 3nat))
            &&& receive_request(replies.take(2)) == Some(
                (seq![0x43u8], packet.payload.len() + 4),
            )
            &&& receive_request(replies) is None
            &&& received_packet(replies) == packet
        }),
{
    let replies = seq![
        seq![status1],
        seq![token, (packet.header & 0xff) as u8, (packet.header >> 8u16) as u8],
        packet.payload + crc,
    ];
    crate::fifo::lemma_header_bytes_roundtrip(packet.header);
    assert(received_header(replies) == packet.header);
    assert(replies.take(1)[0] == replies[0]);
    assert(replies.take(2)[0] == replies[0]);
    assert(replies.take(2)[1] == replies[1]);
    assert(received_header(replies.take(2)) == packet.header);
    assert(received_packet(replies).payload =~= packet.payload);
}

/// When no transfer fails, `configure_phy` makes exactly seven transfers (the `POWER` write
/// and a read and a write of `SWITCHES1`, `CONTROL1` and `CONTROL3`) and then completes; it
/// still asks for a transfer after any fewer replies.
pub proof fn lemma_configure_phy_takes_seven_transfers(config: PhyConfig, replies: Seq<Seq<u8>>)
    ensures
        script_request(configure_phy_script(config), replies) is None <==> replies.len() >= 7,
{
    let s = configure_phy_script(config);
    assert(s.drop_first().drop_first().drop_first().drop_first().len() == 0);
    reveal_with_fuel(script_width, 5);
    assert(script_width(s) == 7);
    lemma_script_length(s, replies);
}

/// The comparator result is read from `COMP`, bit 5 of `STATUS0`, alone: above the threshold
/// exactly when that bit is set, whatever the other status bits (`VBUSOK`, `BC_LVL`, ...) are.
pub proof fn lemma_comparator_reads_comp_bit(status0: u8, other: u8)
    ensures
        comparator_of(status0) == VbusComparator::AboveThreshold <==> (status0 & 0x20u8) != 0,
        comparator_of(status0) == VbusComparator::AtOrBelowThreshold <==> (status0 & 0x20u8) == 0,
        (status0 & 0x20u8) == (other & 0x20u8) ==> comparator_of(status0) == comparator_of(other),
{
    assert(STATUS0_COMP == 0x20u8);
}

/// A transmission writes the FIFO exactly when `STATUS1` reports `TX_EMPTY` (bit 3), whatever its
/// other bits (receive FIFO state, `TX_FULL`, ...): after that one reply the next transfer is the
/// single write of the tokens to `FIFO` (0x43), and once it is done the result is `Ok(())`.
/// Without `TX_EMPTY` it ends with `TransmitFifoBusy` and writes nothing.
pub proof fn lemma_transmit_gated_only_by_tx_empty<E>(tokens: Seq<u8>, status1: u8, ack: Seq<u8>)
    ensures
        tx_fifo_empty(status1) <==> (status1 & 0x08u8) != 0,
        fifo_write_request(tokens, Seq::<Seq<u8>>::empty()) == Some((seq![0x41u8], 1nat)),
        (status1 & 0x08u8) != 0 ==> fifo_write_request(tokens, seq![seq![status1]]) == Some(
            (seq![0x43u8] + tokens, 0nat),
        ),
        (status1 & 0x08u8) != 0 ==> fifo_write_request(tokens, seq![seq![status1], ack]) is None
            && fifo_write_result::<E>(seq![seq![status1], ack]) == Ok::<(), Error<E>>(()),
        (status1 & 0x08u8) == 0 ==> fifo_write_request(tokens, seq![seq![status1]]) is None
            && fifo_write_result::<E>(seq![seq![status1]]) == Err::<(), Error<E>>(
            Error::TransmitFifoBusy,
        ),
{
    assert(STATUS1_TX_EMPTY == 0x08u8);
    assert(reply_at(seq![seq![status1]], 0, 0) == status1);
    assert(reply_at(seq![seq![status1], ack], 0, 0) == status1);
}

/// A receive stops after the `STATUS1` read with nothing received exactly when `RX_EMPTY`
/// (bit 5) is set, whatever the other bits (transmit FIFO state, `RX_FULL`, ...); otherwise it
/// goes on to read the SOP token and header from `FIFO`.
pub proof fn lemma_receive_gated_only_by_rx_empty(status1: u8)
    ensures
        rx_fifo_empty(status1) <==> (status1 & 0x20u8) != 0,
        receive_request(Seq::<Seq<u8>>::empty()) == Some((seq![0x41u8], 1nat)),
        (status1 & 0x20u8) != 0 ==> receive_request(seq![seq![status1]]) is None,
        (status1 & 0x20u8) == 0 ==> receive_request(seq![seq![status1]]) == Some(
            (seq![0x43u8], 3nat),
        ),
{
    assert(STATUS1_RX_EMPTY == 0x20u8);
    assert(reply_at(seq![seq![status1]], 0, 0) == status1);
}

/// The five bytes read from `INTERRUPTA` (0x3e) onward come from consecutive registers, so the
/// snapshot takes `INTERRUPTA` from offset 0, `INTERRUPTB` (0x3f) from offset 1 and `INTERRUPT`
/// (0x42) from offset 4.
pub proof fn lemma_interrupt_block_layout(block: Seq<u8>)
    requires
        block.len() == 5,
    ensures
        snapshot_of(seq![block], 0).interrupt_a == block[0x3e - 0x3e],
        snapshot_of(seq![block], 0).interrupt_b == block[0x3f - 0x3e],
        snapshot_of(seq![block], 0).interrupt == block[0x42 - 0x3e],
{
}

/// The register each operation starts with, by address: the device ID is read from 0x01, the
/// comparator from `STATUS0` (0x40), the toggle state from `STATUS1A` (0x3d), the interrupt
/// latches as five bytes from `INTERRUPTA` (0x3e); resets write 0x01 (software) or 0x02 (PD) to
/// `RESET` (0x0c); configuration starts by powering every block (0x0f to `POWER`, 0x0b) and
/// toggle detection by the toggle power state (0x01); the read-modify-write operations read
/// `SWITCHES0` (0x02), `SWITCHES1` (0x03), `MEASURE` (0x04), `CONTROL0` (0x06) or `CONTROL2` (0x08).
pub proof fn lemma_operations_first_transfer(
    config: PhyConfig,
    pin: CcPin,
    pull: CcPull,
    selection: Option<CcPin>,
    current: HostCurrent,
    threshold: VbusThreshold,
    mode: ToggleMode,
)
    ensures
        ({
            let none = Seq::<Seq<u8>>::empty();
            &&& script_request(device_id_script(), none) == Some((seq![0x01u8], 1nat))
            &&& script_request(read_vbus_comparator_script(), none) == Some((seq![0x40u8], 1nat))
            &&& script_request(toggle_status_script(), none) == Some((seq![0x3du8], 1nat))
            &&& script_request(read_interrupts_script(), none) == Some((seq![0x3eu8], 5nat))
            &&& script_request(software_reset_script(), none) == Some((seq![0x0cu8, 0x01u8], 0nat))
            &&& script_request(pd_reset_script(), none) == Some((seq![0x0cu8, 0x02u8], 0nat))
            &&& script_request(init_script(), none) == Some((seq![0x0cu8, 0x01u8], 0nat))
            &&& script_request(configure_phy_script(config), none) == Some(
                (seq![0x0bu8, 0x0fu8], 0nat),
            )
            &&& script_request(arm_toggle_detection_script(mode), none) == Some(
                (seq![0x0bu8, 0x01u8], 0nat),
            )
            &&& script_request(set_cc_pull_script(pin, pull), none) == Some((seq![0x02u8], 1nat))
            &&& script_request(set_vconn_script(selection), none) == Some((seq![0x02u8], 1nat))
            &&& script_request(set_measure_cc_script(selection), none) == Some((seq![0x02u8], 1nat))
            &&& script_request(configure_vbus_measurement_script(threshold), none) == Some(
                (seq![0x02u8], 1nat),
            )
            &&& script_request(restore_cc_measurement_script(pin), none) == Some(
                (seq![0x04u8], 1nat),
            )
            &&& script_request(set_host_current_script(current), none) == Some((seq![0x06u8], 1nat))
            &&& script_request(flush_fifos_script(), none) == Some((seq![0x06u8], 1nat))
            &&& script_request(set_tx_cc_script(pin), none) == Some((seq![0x03u8], 1nat))
            &&& script_request(start_toggle_script(mode), none) == Some((seq![0x08u8], 1nat))
            &&& script_request(stop_toggle_script(), none) == Some((seq![0x08u8], 1nat))
        }),
{
    assert(RESET_SW == 0x01u8 && RESET_PD == 0x02u8 && POWER_ALL == 0x0fu8
        && POWER_TOGGLE_DETECTION == 0x01u8);
}

/// `read_status` reads `STATUS0A` (0x3c), `STATUS1A` (0x3d), `STATUS0` (0x40) and `STATUS1`
/// (0x41), one byte each in that order, so the i-th reply is the register that its field of the
/// returned `Status` names.
pub proof fn lemma_read_status_registers(i: int)
    requires
        0 <= i < 4,
    ensures
        read_status_script().len() == 4,
        read_status_script()[i] matches Access::Read(r) && register_address(r) == seq![
            0x3cu8,
            0x3du8,
            0x40u8,
            0x41u8,
        ][i],
{
}

/// Once `TOGDONE` is latched, `take_toggle_result` reads `STATUS1A` (0x3d), then writes 0x0f to
/// `POWER` (0x0b) to restore every power domain, then completes.
pub proof fn lemma_toggle_result_transfers(block: Seq<u8>, status1a: Seq<u8>, ack: Seq<u8>)
    requires
        block.len() == 5,
        (block[0] & 0x40u8) != 0,
    ensures
        take_toggle_result_request(seq![block]) == Some((seq![0x3du8], 1nat)),
        take_toggle_result_request(seq![block, status1a]) == Some((seq![0x0bu8, 0x0fu8], 0nat)),
        take_toggle_result_request(seq![block, status1a, ack]) is None,
{
    crate::types::lemma_toggle_done_bit(snapshot_of(seq![block], 0));
    crate::types::lemma_toggle_done_bit(snapshot_of(seq![block, status1a], 0));
    crate::types::lemma_toggle_done_bit(snapshot_of(seq![block, status1a, ack], 0));
    assert(POWER_ALL == 0x0fu8);
}

} // verus!
