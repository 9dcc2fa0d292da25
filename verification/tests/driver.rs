use embedded_hal::i2c::ErrorKind;
use fusb302::operations;
use fusb302::transfer::resume;
use fusb302::{
    CcPin, CcPull, DataRole, Error, Fusb302, PacketError, PdPacket, PdRevision, PhyConfig,
    PowerRole, ReceiveError, ReceiveSopMask, RetryCount, SopType, Step, ToggleMode,
    DEFAULT_ADDRESS,
};

const DEVICE_ID: u8 = 0x01;
const SWITCHES0: u8 = 0x02;
const SWITCHES1: u8 = 0x03;
const CONTROL0: u8 = 0x06;
const CONTROL1: u8 = 0x07;
const CONTROL2: u8 = 0x08;
const CONTROL3: u8 = 0x09;
const POWER: u8 = 0x0b;
const RESET: u8 = 0x0c;
const STATUS1: u8 = 0x41;
const STATUS0A: u8 = 0x3c;
const STATUS1A: u8 = 0x3d;
const STATUS0: u8 = 0x40;
const INTERRUPTA: u8 = 0x3e;
const FIFO: u8 = 0x43;

/// One expected bus transaction, with the bytes the device answers.
#[derive(Clone, Debug)]
struct I2cTransaction {
    address: u8,
    write: Vec<u8>,
    read: Option<Vec<u8>>,
    error: Option<ErrorKind>,
}

impl I2cTransaction {
    fn write(address: u8, write: Vec<u8>) -> Self {
        Self { address, write, read: None, error: None }
    }

    fn write_read(address: u8, write: Vec<u8>, read: Vec<u8>) -> Self {
        Self { address, write, read: Some(read), error: None }
    }

    fn with_error(mut self, error: ErrorKind) -> Self {
        self.error = Some(error);
        self
    }
}

/// A bus that checks every transfer against a list of expected transactions.
struct I2cMock {
    expectations: Vec<I2cTransaction>,
    next: usize,
}

impl I2cMock {
    fn new(expectations: &[I2cTransaction]) -> Self {
        Self { expectations: expectations.to_vec(), next: 0 }
    }

    fn done(self) {
        assert_eq!(self.next, self.expectations.len(), "not every expected transaction ran");
    }
}

/// Carry out an operation's transfers on the driver's bus, as an I2C runner does.
fn run<T>(
    driver: &mut Fusb302<I2cMock>,
    operation: impl Fn(&Fusb302<I2cMock>, &Vec<Vec<u8>>) -> Step<T, ErrorKind>,
) -> Result<T, Error<ErrorKind>> {
    let mut replies: Vec<Vec<u8>> = Vec::new();
    let mut step = operation(&*driver, &replies);
    loop {
        match step {
            Step::Transfer(transfer) => {
                let bus = driver.bus();
                assert!(bus.next < bus.expectations.len(), "unexpected transfer {:?}", transfer.write);
                let expected = bus.expectations[bus.next].clone();
                bus.next += 1;
                assert_eq!(transfer.address, expected.address);
                assert_eq!(transfer.write, expected.write);
                match &expected.read {
                    Some(read) => assert_eq!(transfer.read_len, read.len()),
                    None => assert_eq!(transfer.read_len, 0),
                }
                let outcome = match expected.error {
                    Some(error) => Err(error),
                    None => Ok(expected.read.unwrap_or_default()),
                };
                step = resume(&mut replies, outcome, |r| operation(&*driver, r));
            }
            Step::Complete(result) => return result,
        }
    }
}

fn write_read(register: u8, value: u8) -> I2cTransaction {
    I2cTransaction::write_read(DEFAULT_ADDRESS, vec![register], vec![value])
}

#[test]
fn construction_uses_default_address_and_releases_bus() {
    let bus = I2cMock::new(&[]);
    let driver = Fusb302::new(bus);
    assert_eq!(driver.address(), DEFAULT_ADDRESS);
    driver.release().done();
}

#[test]
fn packet_rejects_mismatched_data_object_count() {
    assert_eq!(
        PdPacket::new(SopType::Sop, 1 << 12, &[]),
        Err(PacketError::PayloadLengthMismatch { expected: 4, actual: 0 })
    );
}

#[test]
fn packet_rejects_payload_larger_than_fusb_fifo_limit() {
    assert_eq!(
        PdPacket::new(SopType::Sop, 0, &[0; 29]),
        Err(PacketError::PayloadTooLong { actual: 29 })
    );
}

#[test]
fn device_id_is_read_as_a_typed_fusb302b_family_value() {
    let expectations = [write_read(DEVICE_ID, 0x9a)];
    let bus = I2cMock::new(&expectations);
    let mut driver = Fusb302::new(bus);

    let id = run(&mut driver, |d, r| operations::device_id(d, r)).unwrap();
    assert_eq!(id.bits(), 0x9a);
    assert!(id.is_fusb302b_family());
    driver.release().done();
}

#[test]
fn init_resets_then_flushes_both_fifos() {
    let expectations = [
        I2cTransaction::write(DEFAULT_ADDRESS, vec![RESET, 0x01]),
        write_read(CONTROL0, 0x32),
        I2cTransaction::write(DEFAULT_ADDRESS, vec![CONTROL0, 0x62]),
        write_read(CONTROL1, 0x80),
        I2cTransaction::write(DEFAULT_ADDRESS, vec![CONTROL1, 0x04]),
    ];
    let bus = I2cMock::new(&expectations);
    let mut driver = Fusb302::new(bus);

    run(&mut driver, |d, r| operations::init(d, r)).unwrap();
    driver.release().done();
}

#[test]
fn config_filters_command_and_reserved_bits_and_enables_requested_automation() {
    let expectations = [
        I2cTransaction::write(DEFAULT_ADDRESS, vec![POWER, 0x0f]),
        write_read(SWITCHES1, 0x0b),
        I2cTransaction::write(DEFAULT_ADDRESS, vec![SWITCHES1, 0xb7]),
        write_read(CONTROL1, 0x94),
        I2cTransaction::write(DEFAULT_ADDRESS, vec![CONTROL1, 0x13]),
        write_read(CONTROL3, 0xe0),
        I2cTransaction::write(DEFAULT_ADDRESS, vec![CONTROL3, 0x2f]),
    ];
    let bus = I2cMock::new(&expectations);
    let mut driver = Fusb302::new(bus);
    let config = PhyConfig {
        pd_revision: PdRevision::Rev20,
        power_role: PowerRole::Source,
        data_role: DataRole::Dfp,
        auto_goodcrc: true,
        retry_count: RetryCount::Three,
        auto_soft_reset: true,
        auto_hard_reset: false,
        receive_sop: ReceiveSopMask::SOP()
            | ReceiveSopMask::SOP_PRIME()
            | ReceiveSopMask::SOP_DOUBLE_PRIME(),
    };

    run(&mut driver, |d, r| operations::configure_phy(d, config, r)).unwrap();
    driver.release().done();
}

#[test]
fn config_maps_debug_sop_masks_to_their_matching_control1_bits() {
    let expectations = [
        I2cTransaction::write(DEFAULT_ADDRESS, vec![POWER, 0x0f]),
        write_read(SWITCHES1, 0),
        I2cTransaction::write(DEFAULT_ADDRESS, vec![SWITCHES1, 0x20]),
        write_read(CONTROL1, 0),
        I2cTransaction::write(DEFAULT_ADDRESS, vec![CONTROL1, 0x60]),
        write_read(CONTROL3, 0),
        I2cTransaction::write(DEFAULT_ADDRESS, vec![CONTROL3, 0]),
    ];
    let bus = I2cMock::new(&expectations);
    let mut driver = Fusb302::new(bus);
    let config = PhyConfig {
        receive_sop: ReceiveSopMask::SOP_PRIME_DEBUG() | ReceiveSopMask::SOP_DOUBLE_PRIME_DEBUG(),
        ..PhyConfig::default()
    };

    run(&mut driver, |d, r| operations::configure_phy(d, config, r)).unwrap();
    driver.release().done();
}

#[test]
fn cc_vconn_and_toggle_operations_are_precise_rmw_transactions() {
    let expectations = [
        write_read(SWITCHES0, 0xa8),
        I2cTransaction::write(DEFAULT_ADDRESS, vec![SWITCHES0, 0xa9]),
        write_read(SWITCHES0, 0xa9),
        I2cTransaction::write(DEFAULT_ADDRESS, vec![SWITCHES0, 0x99]),
        write_read(SWITCHES1, 0xfc),
        I2cTransaction::write(DEFAULT_ADDRESS, vec![SWITCHES1, 0xf5]),
        write_read(CONTROL2, 0xe0),
        I2cTransaction::write(DEFAULT_ADDRESS, vec![CONTROL2, 0xe3]),
        write_read(CONTROL2, 0xe3),
        I2cTransaction::write(DEFAULT_ADDRESS, vec![CONTROL2, 0xe2]),
    ];
    let bus = I2cMock::new(&expectations);
    let mut driver = Fusb302::new(bus);

    run(&mut driver, |d, r| operations::set_cc_pull(d, CcPin::Cc1, CcPull::Down, r)).unwrap();
    run(&mut driver, |d, r| operations::set_vconn(d, Some(CcPin::Cc1), r)).unwrap();
    run(&mut driver, |d, r| operations::set_tx_cc(d, CcPin::Cc1, r)).unwrap();
    run(&mut driver, |d, r| operations::start_toggle(d, ToggleMode::DualRole, r)).unwrap();
    run(&mut driver, |d, r| operations::stop_toggle(d, r)).unwrap();
    driver.release().done();
}

#[test]
fn interrupt_snapshot_is_one_contiguous_clear_on_read_transaction() {
    let expectations = [I2cTransaction::write_read(
        DEFAULT_ADDRESS,
        vec![INTERRUPTA],
        vec![0x04, 0x01, 0, 0, 0x80],
    )];
    let bus = I2cMock::new(&expectations);
    let mut driver = Fusb302::new(bus);

    let interrupts = run(&mut driver, |d, r| operations::read_interrupts(d, r)).unwrap();
    assert_eq!(interrupts.interrupt_a, 0x04);
    assert_eq!(interrupts.interrupt_b, 0x01);
    assert_eq!(interrupts.interrupt, 0x80);
    driver.release().done();
}

#[test]
fn status_snapshot_has_no_clear_on_read_side_effect() {
    let expectations = [
        write_read(STATUS0A, 0x10),
        write_read(STATUS1A, 0x09),
        write_read(STATUS0, 0x90),
        write_read(STATUS1, 0x28),
    ];
    let bus = I2cMock::new(&expectations);
    let mut driver = Fusb302::new(bus);

    let status = run(&mut driver, |d, r| operations::read_status(d, r)).unwrap();
    assert_eq!(status.status0a, 0x10);
    assert_eq!(status.status1a, 0x09);
    assert_eq!(status.status0, 0x90);
    assert_eq!(status.status1, 0x28);
    driver.release().done();
}

#[test]
fn transmit_encodes_sop_packet_and_crc_tokens() {
    let packet = PdPacket::new(SopType::Sop, 1 << 12, &[1, 2, 3, 4]).unwrap();
    let expectations = [
        write_read(STATUS1, 0x08),
        I2cTransaction::write(
            DEFAULT_ADDRESS,
            vec![
                FIFO, 0x12, 0x12, 0x12, 0x13, 0x86, 0x00, 0x10, 1, 2, 3, 4, 0xff, 0x14, 0xfe, 0xa1,
            ],
        ),
    ];
    let bus = I2cMock::new(&expectations);
    let mut driver = Fusb302::new(bus);

    run(&mut driver, |d, r| operations::transmit(d, &packet, r)).unwrap();
    driver.release().done();
}

#[test]
fn transmit_encodes_sop_prime_with_its_distinct_ordered_set() {
    let packet = PdPacket::new(SopType::SopPrime, 0, &[]).unwrap();
    let expectations = [
        write_read(STATUS1, 0x08),
        I2cTransaction::write(
            DEFAULT_ADDRESS,
            vec![FIFO, 0x12, 0x12, 0x1b, 0x1b, 0x82, 0x00, 0x00, 0xff, 0x14, 0xfe, 0xa1],
        ),
    ];
    let bus = I2cMock::new(&expectations);
    let mut driver = Fusb302::new(bus);

    run(&mut driver, |d, r| operations::transmit(d, &packet, r)).unwrap();
    driver.release().done();
}

#[test]
fn hard_reset_uses_reset_tokens_and_txon_command() {
    let expectations = [
        write_read(STATUS1, 0x08),
        I2cTransaction::write(DEFAULT_ADDRESS, vec![FIFO, 0x15, 0x15, 0x15, 0x16, 0xa1]),
    ];
    let bus = I2cMock::new(&expectations);
    let mut driver = Fusb302::new(bus);

    run(&mut driver, |d, r| operations::transmit_hard_reset(d, r)).unwrap();
    driver.release().done();
}

#[test]
fn receive_parses_a_full_physical_packet_and_discards_crc() {
    let expectations = [
        write_read(STATUS1, 0),
        I2cTransaction::write_read(DEFAULT_ADDRESS, vec![FIFO], vec![0xe0, 0x00, 0x10]),
        I2cTransaction::write_read(DEFAULT_ADDRESS, vec![FIFO], vec![1, 2, 3, 4, 0, 0, 0, 0]),
    ];
    let bus = I2cMock::new(&expectations);
    let mut driver = Fusb302::new(bus);

    let packet = run(&mut driver, |d, r| operations::receive(d, r)).unwrap().unwrap();
    assert_eq!(packet.sop(), SopType::Sop);
    assert_eq!(packet.header(), 0x1000);
    assert_eq!(packet.payload(), [1, 2, 3, 4]);
    driver.release().done();
}

#[test]
fn receive_classifies_sop_prime_from_its_defined_high_bits() {
    let expectations = [
        write_read(STATUS1, 0),
        I2cTransaction::write_read(DEFAULT_ADDRESS, vec![FIFO], vec![0xcf, 0, 0]),
        I2cTransaction::write_read(DEFAULT_ADDRESS, vec![FIFO], vec![0, 0, 0, 0]),
    ];
    let bus = I2cMock::new(&expectations);
    let mut driver = Fusb302::new(bus);

    assert_eq!(
        run(&mut driver, |d, r| operations::receive(d, r)).unwrap().unwrap().sop(),
        SopType::SopPrime
    );
    driver.release().done();
}

#[test]
fn receive_rejects_malformed_sop_token() {
    let expectations = [
        write_read(STATUS1, 0),
        I2cTransaction::write_read(DEFAULT_ADDRESS, vec![FIFO], vec![0x40, 0, 0]),
    ];
    let bus = I2cMock::new(&expectations);
    let mut driver = Fusb302::new(bus);

    assert_eq!(
        run(&mut driver, |d, r| operations::receive(d, r)),
        Err(Error::Receive(ReceiveError::InvalidSopToken(0x40)))
    );
    driver.release().done();
}

#[test]
fn fifo_status_errors_are_observable_before_packet_io() {
    // A full receive FIFO (`RX_FULL` set, `RX_EMPTY` clear) still holds readable packet data:
    // it is drained as a packet rather than reported as `ReceiveError::FifoOverflow`.
    let expectations = [
        write_read(STATUS1, 0x10),
        I2cTransaction::write_read(DEFAULT_ADDRESS, vec![FIFO], vec![0xe0, 0, 0]),
        I2cTransaction::write_read(DEFAULT_ADDRESS, vec![FIFO], vec![0, 0, 0, 0]),
    ];
    let bus = I2cMock::new(&expectations);
    let mut driver = Fusb302::new(bus);
    let received = run(&mut driver, |d, r| operations::receive(d, r));
    assert_ne!(received, Err(Error::Receive(ReceiveError::FifoOverflow)));
    assert_eq!(received.unwrap().unwrap().sop(), SopType::Sop);
    driver.release().done();

    let packet = PdPacket::new(SopType::Sop, 0, &[]).unwrap();
    let bus = I2cMock::new(&[write_read(STATUS1, 0)]);
    let mut driver = Fusb302::new(bus);
    assert_eq!(
        run(&mut driver, |d, r| operations::transmit(d, &packet, r)),
        Err(Error::TransmitFifoBusy)
    );
    driver.release().done();
}

#[test]
fn transfers_go_to_the_selected_address() {
    let expectations = [
        I2cTransaction::write_read(0x23, vec![DEVICE_ID], vec![0x91]),
        I2cTransaction::write(0x23, vec![RESET, 0x02]),
    ];
    let bus = I2cMock::new(&expectations);
    let mut driver = Fusb302::with_address(bus, 0x23);
    assert_eq!(driver.address(), 0x23);
    assert_eq!(run(&mut driver, |d, r| operations::device_id(d, r)).unwrap().bits(), 0x91);
    run(&mut driver, |d, r| operations::pd_reset(d, r)).unwrap();
    assert_eq!(driver.address(), 0x23);
    driver.release().done();
}

#[test]
fn i2c_failures_are_not_hidden() {
    let expectations = [
        I2cTransaction::write_read(DEFAULT_ADDRESS, vec![DEVICE_ID], vec![0])
            .with_error(ErrorKind::Other),
    ];
    let bus = I2cMock::new(&expectations);
    let mut driver = Fusb302::new(bus);

    assert_eq!(
        run(&mut driver, |d, r| operations::device_id(d, r)),
        Err(Error::I2c(ErrorKind::Other))
    );
    driver.release().done();
}

#[test]
fn async_driver_has_the_same_transaction_semantics() {
    let expectations = [
        I2cTransaction::write(DEFAULT_ADDRESS, vec![RESET, 0x01]),
        write_read(CONTROL0, 0x32),
        I2cTransaction::write(DEFAULT_ADDRESS, vec![CONTROL0, 0x62]),
        write_read(CONTROL1, 0x80),
        I2cTransaction::write(DEFAULT_ADDRESS, vec![CONTROL1, 0x04]),
        I2cTransaction::write(DEFAULT_ADDRESS, vec![POWER, 0x0f]),
        write_read(SWITCHES1, 0),
        I2cTransaction::write(DEFAULT_ADDRESS, vec![SWITCHES1, 0x20]),
        write_read(CONTROL1, 0),
        I2cTransaction::write(DEFAULT_ADDRESS, vec![CONTROL1, 0]),
        write_read(CONTROL3, 0),
        I2cTransaction::write(DEFAULT_ADDRESS, vec![CONTROL3, 0]),
        write_read(STATUS1, 0x08),
        I2cTransaction::write(
            DEFAULT_ADDRESS,
            vec![FIFO, 0x12, 0x12, 0x12, 0x13, 0x82, 0, 0, 0xff, 0x14, 0xfe, 0xa1],
        ),
        write_read(STATUS1, 0),
        I2cTransaction::write_read(DEFAULT_ADDRESS, vec![FIFO], vec![0xe0, 0, 0]),
        I2cTransaction::write_read(DEFAULT_ADDRESS, vec![FIFO], vec![0, 0, 0, 0]),
    ];
    let bus = I2cMock::new(&expectations);
    let mut driver = Fusb302::new(bus);

    run(&mut driver, |d, r| operations::init(d, r)).unwrap();
    run(&mut driver, |d, r| operations::configure_phy(d, PhyConfig::default(), r)).unwrap();
    let packet = PdPacket::new(SopType::Sop, 0, &[]).unwrap();
    run(&mut driver, |d, r| operations::transmit(d, &packet, r)).unwrap();
    assert_eq!(
        run(&mut driver, |d, r| operations::receive(d, r)).unwrap().unwrap().sop(),
        SopType::Sop
    );
    driver.release().done();
}
