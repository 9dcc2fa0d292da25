use fusb302::fields::{
    apply_cc_pull, configure_control3, configure_switches1, flush_rx_bits, flush_tx_bits,
    leave_vbus_measurement, measure_vbus, receive_sop_bits, select_host_current,
    select_measure_cc, select_tx_cc, select_vconn, start_toggle_bits, stop_toggle_bits,
};
use fusb302::fifo::{hard_reset_tokens, rx_sop_type, transmit_tokens, tx_sop_tokens};
use fusb302::operations;
use fusb302::transfer::resume;
use fusb302::registers::Register;
use fusb302::{
    CcPin, CcPull, DataRole, DeviceId, Fusb302, DEFAULT_ADDRESS, Error, HostCurrent, InterruptMasks, InterruptSnapshot,
    PacketError, PdPacket, PdRevision, PhyConfig, PowerRole, ReceiveError, ReceiveSopMask,
    RetryCount, SopType, Step, ToggleMode, ToggleStatus, TransmitStatus, VbusComparator,
    VbusThreshold,
};

/// Feed an operation the given replies in order, returning the writes it requested and its
/// result. Each reply answers the transfer requested just before it.
fn drive<T>(
    operation: impl Fn(&Fusb302<()>, &Vec<Vec<u8>>) -> Step<T, ()>,
    answers: &[Vec<u8>],
) -> (Vec<(Vec<u8>, usize)>, Result<T, Error<()>>) {
    let driver = Fusb302::new(());
    let mut replies: Vec<Vec<u8>> = Vec::new();
    let mut requested = Vec::new();
    loop {
        match operation(&driver, &replies) {
            Step::Transfer(t) => {
                assert!(replies.len() < answers.len(), "more transfers than answers");
                assert_eq!(answers[replies.len()].len(), t.read_len);
                assert_eq!(t.address, DEFAULT_ADDRESS);
                requested.push((t.write, t.read_len));
                replies.push(answers[replies.len()].clone());
            }
            Step::Complete(result) => return (requested, result),
        }
    }
}

#[test]
fn register_addresses_follow_the_register_map() {
    assert_eq!(Register::DeviceId.address(), 0x01);
    assert_eq!(Register::Control3.address(), 0x09);
    assert_eq!(Register::MaskB.address(), 0x0f);
    assert_eq!(Register::InterruptA.address(), 0x3e);
    assert_eq!(Register::Interrupt.address(), 0x42);
    assert_eq!(Register::Fifo.address(), 0x43);
}

#[test]
fn receive_sop_union_is_order_independent() {
    let a = ReceiveSopMask::SOP_PRIME() | ReceiveSopMask::SOP_DOUBLE_PRIME_DEBUG();
    let b = ReceiveSopMask::SOP_DOUBLE_PRIME_DEBUG() | ReceiveSopMask::SOP_PRIME();
    assert_eq!(a, b);
    assert_eq!(a.bits(), 0x12);
    assert_eq!((a | a).bits(), a.bits());
    assert_eq!((a | ReceiveSopMask::NONE()).bits(), a.bits());
    let mut c = ReceiveSopMask::NONE();
    c |= ReceiveSopMask::SOP_PRIME_DEBUG();
    assert_eq!(c.bits(), 0x08);
}

#[test]
fn receive_sop_bits_ignore_standard_sop() {
    assert_eq!(receive_sop_bits(ReceiveSopMask::SOP()), 0);
    assert_eq!(receive_sop_bits(ReceiveSopMask::SOP_PRIME()), 0x01);
    assert_eq!(receive_sop_bits(ReceiveSopMask::SOP_DOUBLE_PRIME()), 0x02);
    assert_eq!(receive_sop_bits(ReceiveSopMask::SOP_PRIME_DEBUG()), 0x20);
    assert_eq!(receive_sop_bits(ReceiveSopMask::SOP_DOUBLE_PRIME_DEBUG()), 0x40);
}

#[test]
fn default_config_disables_all_automation_and_uses_pd20_goodcrc() {
    let config = PhyConfig::default();
    assert_eq!(config.pd_revision, PdRevision::Rev20);
    assert_eq!(config.retry_count, RetryCount::Disabled);
    assert!(!config.auto_goodcrc && !config.auto_soft_reset && !config.auto_hard_reset);
    assert_eq!(configure_switches1(0xff, config), 0x23);
    assert_eq!(configure_control3(0xff, config), 0x20);
}

#[test]
fn pd30_goodcrc_is_an_explicit_specrev_10_opt_in() {
    let config = PhyConfig { pd_revision: PdRevision::Rev30, ..PhyConfig::default() };
    assert_eq!(configure_switches1(0, config), 0x40);
}

#[test]
fn retry_counts_select_their_control3_fields() {
    for (count, bits) in [
        (RetryCount::One, 0x03),
        (RetryCount::Two, 0x05),
        (RetryCount::Three, 0x07),
        (RetryCount::Disabled, 0x00),
    ] {
        let config = PhyConfig { retry_count: count, ..PhyConfig::default() };
        assert_eq!(configure_control3(0xc0, config), bits);
    }
    let config = PhyConfig {
        auto_hard_reset: true,
        power_role: PowerRole::Sink,
        data_role: DataRole::Ufp,
        ..PhyConfig::default()
    };
    assert_eq!(configure_control3(0, config), 0x10);
}

#[test]
fn cc_pull_changes_only_the_selected_pin() {
    assert_eq!(apply_cc_pull(0x41, CcPin::Cc1, CcPull::Open), 0x00);
    assert_eq!(apply_cc_pull(0x01, CcPin::Cc1, CcPull::Up), 0x40);
    assert_eq!(apply_cc_pull(0x80, CcPin::Cc2, CcPull::Down), 0x02);
    assert_eq!(apply_cc_pull(0x7d, CcPin::Cc2, CcPull::Up), 0xfd);
}

#[test]
fn vconn_and_measure_selection_close_at_most_one_switch() {
    assert_eq!(select_vconn(0x3f, None), 0x0f);
    assert_eq!(select_vconn(0x10, Some(CcPin::Cc2)), 0x20);
    assert_eq!(select_measure_cc(0xff, Some(CcPin::Cc1)), 0xf7);
    assert_eq!(select_measure_cc(0x0c, None), 0x00);
}

#[test]
fn tx_cc_clears_the_reserved_bit() {
    assert_eq!(select_tx_cc(0x0d, CcPin::Cc2), 0x06);
}

#[test]
fn host_current_encodings() {
    assert_eq!(HostCurrent::Default.control0_bits(), 0x04);
    assert_eq!(HostCurrent::Current1A5.control0_bits(), 0x08);
    assert_eq!(HostCurrent::Current3A.control0_bits(), 0x0c);
    assert_eq!(select_host_current(0xff, HostCurrent::Default), 0xf7);
}

#[test]
fn toggle_start_and_stop_keep_the_mode() {
    let started = start_toggle_bits(0xff, ToggleMode::Sink);
    assert_eq!(started, 0xed);
    assert_eq!(stop_toggle_bits(started), 0xec);
    assert_eq!(start_toggle_bits(0, ToggleMode::Source), 0x07);
}

#[test]
fn vbus_measurement_programs_the_dac_and_keeps_the_reserved_bit() {
    let threshold = VbusThreshold::NINE_VOLTS_MIN();
    assert_eq!(measure_vbus(0x80, threshold), 0xd4);
    assert_eq!(leave_vbus_measurement(0xd4), 0x94);
}

#[test]
fn flushes_keep_settings_and_drop_commands() {
    assert_eq!(flush_tx_bits(0xff), 0x6e);
    assert_eq!(flush_rx_bits(0xff), 0x77);
}

#[test]
fn vbus_thresholds_are_bounded_420_mv_steps() {
    assert_eq!(VbusThreshold::VSAFE5().nominal_millivolts(), 4620);
    assert_eq!(VbusThreshold::NINE_VOLTS_MIN().nominal_millivolts(), 8820);
    assert_eq!(VbusThreshold::NINE_VOLTS_MAX().nominal_millivolts(), 12180);
    assert_eq!(VbusThreshold::from_mdac_step(63).map(|t| t.mdac_step()), Some(63));
    assert_eq!(VbusThreshold::from_mdac_step(64), None);
    assert_eq!(VbusThreshold::from_mdac_step(0).unwrap().nominal_millivolts(), 420);
}

#[test]
fn device_id_family_is_the_high_nibble() {
    assert!(DeviceId::new(0x90).is_fusb302b_family());
    assert!(DeviceId::new(0x9f).is_fusb302b_family());
    assert!(!DeviceId::new(0x80).is_fusb302b_family());
    assert!(!DeviceId::new(0xa9).is_fusb302b_family());
}

#[test]
fn interrupt_snapshot_decodes_transmit_outcomes_with_retry_failure_first() {
    let both = InterruptSnapshot { interrupt: 0, interrupt_a: 0x14, interrupt_b: 0 };
    assert_eq!(both.transmit_status(), Some(TransmitStatus::RetryFailed));
    let sent = InterruptSnapshot { interrupt: 0, interrupt_a: 0x04, interrupt_b: 0 };
    assert_eq!(sent.transmit_status(), Some(TransmitStatus::Sent));
    let none = InterruptSnapshot { interrupt: 0xff, interrupt_a: 0xeb, interrupt_b: 0xff };
    assert_eq!(none.transmit_status(), None);
    assert!(none.toggle_done());
    assert!(!sent.toggle_done());
}

#[test]
fn toggle_status_decodes_every_togss_value() {
    let expected = [
        ToggleStatus::Running,
        ToggleStatus::SourceCc1,
        ToggleStatus::SourceCc2,
        ToggleStatus::Unknown(3),
        ToggleStatus::Unknown(4),
        ToggleStatus::SinkCc1,
        ToggleStatus::SinkCc2,
        ToggleStatus::AudioAccessory,
    ];
    for (togss, status) in expected.iter().enumerate() {
        assert_eq!(ToggleStatus::from_status1a(((togss as u8) << 3) | 0xc7), *status);
    }
    assert_eq!(ToggleStatus::SinkCc2.settled_cc(), Some(CcPin::Cc2));
    assert_eq!(ToggleStatus::SourceCc1.settled_cc(), Some(CcPin::Cc1));
    assert_eq!(ToggleStatus::AudioAccessory.settled_cc(), None);
    assert_eq!(ToggleStatus::Unknown(3).settled_cc(), None);
}

#[test]
fn interrupt_masks_for_toggle_detection_keep_togdone() {
    let masks = InterruptMasks::toggle_detection();
    assert_eq!((masks.primary(), masks.extended_a(), masks.extended_b()), (0xff, 0xbf, 0x01));
    let custom = InterruptMasks::new(1, 2, 3);
    assert_eq!((custom.primary(), custom.extended_a(), custom.extended_b()), (1, 2, 3));
}

#[test]
fn packet_accessors_and_header_lengths() {
    for objects in 0..8u16 {
        assert_eq!(PdPacket::payload_len_from_header(objects << 12 | 0x8fff), objects as usize * 4);
    }
    let payload: Vec<u8> = (0..28).collect();
    let packet = PdPacket::new(SopType::SopDoublePrime, 0x7000, &payload).unwrap();
    assert_eq!(packet.payload(), payload.as_slice());
    assert_eq!(packet.sop(), SopType::SopDoublePrime);
    assert_eq!(packet.header(), 0x7000);
    assert_eq!(
        PdPacket::new(SopType::Sop, 0x2000, &[0; 4]),
        Err(PacketError::PayloadLengthMismatch { expected: 8, actual: 4 })
    );
}

#[test]
fn fifo_packet_keeps_only_the_announced_bytes() {
    let mut raw = [0xaa; 28];
    raw[0] = 1;
    let packet = PdPacket::from_fifo(SopType::Sop, 0x1000, raw);
    assert_eq!(packet.payload(), [1, 0xaa, 0xaa, 0xaa]);
    assert_eq!(packet, PdPacket::new(SopType::Sop, 0x1000, &[1, 0xaa, 0xaa, 0xaa]).unwrap());
}

#[test]
fn sop_tokens_round_out_every_sop_type() {
    assert_eq!(tx_sop_tokens(SopType::SopDoublePrime), [0x12, 0x1b, 0x12, 0x1b]);
    assert_eq!(tx_sop_tokens(SopType::SopPrimeDebug), [0x12, 0x16, 0x16, 0x1b]);
    assert_eq!(tx_sop_tokens(SopType::SopDoublePrimeDebug), [0x12, 0x16, 0x1b, 0x13]);
    assert_eq!(rx_sop_type(0xe5), Some(SopType::Sop));
    assert_eq!(rx_sop_type(0xa0), Some(SopType::SopDoublePrime));
    assert_eq!(rx_sop_type(0x9f), Some(SopType::SopPrimeDebug));
    assert_eq!(rx_sop_type(0x60), Some(SopType::SopDoublePrimeDebug));
    assert_eq!(rx_sop_type(0x5f), None);
    assert_eq!(rx_sop_type(0x00), None);
    assert_eq!(hard_reset_tokens(), vec![0x15, 0x15, 0x15, 0x16, 0xa1]);
}

#[test]
fn longest_packet_fits_the_transmit_fifo() {
    let packet = PdPacket::new(SopType::Sop, 0x7000, &[7; 28]).unwrap();
    let tokens = transmit_tokens(&packet);
    assert_eq!(tokens.len(), 39);
    assert_eq!(tokens[4], 0x80 | 30);
    assert_eq!(&tokens[5..7], &[0x00, 0x70]);
}

#[test]
fn transmit_reports_a_busy_fifo_before_packet_io() {
    let packet = PdPacket::new(SopType::Sop, 0, &[]).unwrap();
    let (requested, result) = drive(|d, r| operations::transmit(d, &packet, r), &[vec![0]]);
    assert_eq!(requested, vec![(vec![0x41], 1)]);
    assert_eq!(result, Err(Error::TransmitFifoBusy));
    let (requested, result) = drive(|d, r| operations::transmit_hard_reset(d, r), &[vec![0xf7]]);
    assert_eq!(requested, vec![(vec![0x41], 1)]);
    assert_eq!(result, Err(Error::TransmitFifoBusy));
}

#[test]
fn full_receive_fifo_is_drained_as_a_packet() {
    let (requested, result) =
        drive(|d, r| operations::receive(d, r), &[vec![0x10], vec![0xe0, 0, 0], vec![0; 4]]);
    assert_eq!(requested, vec![(vec![0x41], 1), (vec![0x43], 3), (vec![0x43], 4)]);
    let packet = result.unwrap().unwrap();
    assert_eq!(packet.sop(), SopType::Sop);
    assert!(packet.payload().is_empty());
}

#[test]
fn empty_receive_fifo_reads_nothing_more() {
    let (requested, result) = drive(|d, r| operations::receive(d, r), &[vec![0x20]]);
    assert_eq!(requested, vec![(vec![0x41], 1)]);
    assert_eq!(result, Ok(None));
}

#[test]
fn receive_reads_the_announced_payload_and_crc() {
    let tail: Vec<u8> = (1..=12).collect();
    let (requested, result) =
        drive(|d, r| operations::receive(d, r), &[vec![0], vec![0xa3, 0x41, 0x21], tail]);
    assert_eq!(requested[2], (vec![0x43], 12));
    let packet = result.unwrap().unwrap();
    assert_eq!(packet.sop(), SopType::SopDoublePrime);
    assert_eq!(packet.header(), 0x2141);
    assert_eq!(packet.payload(), [1, 2, 3, 4, 5, 6, 7, 8]);
}

#[test]
fn take_toggle_result_reads_state_only_after_togdone() {
    let (requested, result) =
        drive(|d, r| operations::take_toggle_result(d, r), &[vec![0xbf, 0xff, 0, 0, 0xff]]);
    assert_eq!(requested, vec![(vec![0x3e], 5)]);
    assert_eq!(result, Ok(None));

    let (requested, result) = drive(
        |d, r| operations::take_toggle_result(d, r),
        &[vec![0x40, 0, 0, 0, 0], vec![0x28], vec![]],
    );
    assert_eq!(requested, vec![(vec![0x3e], 5), (vec![0x3d], 1), (vec![0x0b, 0x0f], 0)]);
    assert_eq!(result, Ok(Some(ToggleStatus::SinkCc1)));
}

#[test]
fn take_transmit_status_consumes_the_interrupt_latches() {
    let (requested, result) =
        drive(|d, r| operations::take_transmit_status(d, r), &[vec![0x04, 0, 0, 0, 0]]);
    assert_eq!(requested, vec![(vec![0x3e], 5)]);
    assert_eq!(result, Ok(Some(TransmitStatus::Sent)));
}

#[test]
fn arm_toggle_detection_sequence() {
    let (requested, result) = drive(
        |d, r| operations::arm_toggle_detection(d, ToggleMode::Source, r),
        &[vec![], vec![], vec![], vec![], vec![0; 5], vec![0x10], vec![]],
    );
    assert_eq!(
        requested,
        vec![
            (vec![0x0b, 0x01], 0),
            (vec![0x0a, 0xff], 0),
            (vec![0x0e, 0xbf], 0),
            (vec![0x0f, 0x01], 0),
            (vec![0x3e], 5),
            (vec![0x08], 1),
            (vec![0x08, 0x07], 0),
        ]
    );
    assert_eq!(result, Ok(()));
}

#[test]
fn measurement_sequences() {
    let (requested, result) = drive(
        |d, r| operations::configure_vbus_measurement(d, VbusThreshold::VSAFE5(), r),
        &[vec![0x0f], vec![], vec![0x80], vec![]],
    );
    assert_eq!(
        requested,
        vec![(vec![0x02], 1), (vec![0x02, 0x03], 0), (vec![0x04], 1), (vec![0x04, 0xca], 0)]
    );
    assert_eq!(result, Ok(()));

    let (requested, _) = drive(
        |d, r| operations::restore_cc_measurement(d, CcPin::Cc2, r),
        &[vec![0xca], vec![], vec![0x03], vec![]],
    );
    assert_eq!(
        requested,
        vec![(vec![0x04], 1), (vec![0x04, 0x8a], 0), (vec![0x02], 1), (vec![0x02, 0x0b], 0)]
    );

    let (_, above) = drive(|d, r| operations::read_vbus_comparator(d, r), &[vec![0x20]]);
    assert_eq!(above, Ok(VbusComparator::AboveThreshold));
    let (_, below) = drive(|d, r| operations::read_vbus_comparator(d, r), &[vec![0xdf]]);
    assert_eq!(below, Ok(VbusComparator::AtOrBelowThreshold));
}

#[test]
fn single_register_operations() {
    let (requested, _) = drive(|d, r| operations::software_reset(d, r), &[vec![]]);
    assert_eq!(requested, vec![(vec![0x0c, 0x01], 0)]);
    let (requested, _) = drive(|d, r| operations::pd_reset(d, r), &[vec![]]);
    assert_eq!(requested, vec![(vec![0x0c, 0x02], 0)]);
    let (requested, _) = drive(|d, r| operations::set_host_current_default(d, r), &[vec![0xff], vec![]]);
    assert_eq!(requested, vec![(vec![0x06], 1), (vec![0x06, 0xf7], 0)]);
    let (requested, _) = drive(
        |d, r| operations::set_host_current(d, HostCurrent::Current3A, r),
        &[vec![0x00], vec![]],
    );
    assert_eq!(requested[1], (vec![0x06, 0x0c], 0));
    let (requested, _) =
        drive(|d, r| operations::set_measure_cc(d, Some(CcPin::Cc2), r), &[vec![0x04], vec![]]);
    assert_eq!(requested[1], (vec![0x02, 0x08], 0));
    let (requested, _) = drive(|d, r| operations::flush_fifos(d, r), &[vec![0x01], vec![], vec![0x08], vec![]]);
    assert_eq!(
        requested,
        vec![(vec![0x06], 1), (vec![0x06, 0x40], 0), (vec![0x07], 1), (vec![0x07, 0x04], 0)]
    );
    let (requested, _) = drive(
        |d, r| operations::set_interrupt_masks(d, InterruptMasks::new(0x11, 0x22, 0x33), r),
        &[vec![], vec![], vec![]],
    );
    assert_eq!(
        requested,
        vec![(vec![0x0a, 0x11], 0), (vec![0x0e, 0x22], 0), (vec![0x0f, 0x33], 0)]
    );
    let (requested, status) = drive(|d, r| operations::toggle_status(d, r), &[vec![0x10]]);
    assert_eq!(requested, vec![(vec![0x3d], 1)]);
    assert_eq!(status, Ok(ToggleStatus::SourceCc2));
}

#[test]
fn failed_transfers_end_the_operation_with_the_bus_error() {
    let driver = fusb302::Fusb302::new(());
    let config = PhyConfig::default();
    let mut replies: Vec<Vec<u8>> = vec![vec![]];
    let step = resume::<(), &str, _>(&mut replies, Err("nack"), |r| {
        operations::configure_phy(&driver, config, r)
    });
    assert!(matches!(step, Step::Complete(Err(Error::I2c("nack")))));
    assert_eq!(replies, vec![vec![]]);

    let step = resume::<(), &str, _>(&mut replies, Ok(vec![0x0b]), |r| {
        operations::configure_phy(&driver, config, r)
    });
    match step {
        Step::Transfer(t) => assert_eq!((t.write, t.read_len), (vec![0x03, 0x23], 0)),
        Step::Complete(_) => panic!("configure_phy stopped early"),
    }
    assert_eq!(replies, vec![vec![], vec![0x0b]]);
}

#[test]
fn errors_convert_from_packet_and_receive_errors() {
    let packet: Error<()> = PacketError::PayloadTooLong { actual: 30 }.into();
    assert_eq!(packet, Error::Packet(PacketError::PayloadTooLong { actual: 30 }));
    let receive: Error<()> = ReceiveError::CrcCheckFailed.into();
    assert_eq!(receive, Error::Receive(ReceiveError::CrcCheckFailed));
}
