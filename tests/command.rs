use ssd1680::command::{
    BufCommand, Command, DataEntryMode, DeepSleepMode, DisplayUpdateSequenceOption,
    IncrementAxis, RamOption, SourceOption, TemperatureSensor,
};
use ssd1680::interface::Transport;
use ssd1680::{DisplayInterface, Ssd1680Error};

struct MockInterface {
    data: [u8; 256],
    offset: usize,
}

impl MockInterface {
    fn new() -> Self {
        MockInterface {
            data: [0; 256],
            offset: 0,
        }
    }

    fn write(&mut self, byte: u8) {
        self.data[self.offset] = byte;
        self.offset += 1;
    }

    fn data(&self) -> &[u8] {
        &self.data[0..self.offset]
    }
}

impl DisplayInterface for MockInterface {
    fn send_command(&mut self, command: u8) -> Result<(), Ssd1680Error> {
        self.write(command);
        Ok(())
    }

    fn send_data(&mut self, data: &[u8]) -> Result<(), Ssd1680Error> {
        for byte in data {
            self.write(*byte)
        }
        Ok(())
    }

    fn reset(&mut self) -> Result<(), Ssd1680Error> {
        self.data = [0; 256];
        self.offset = 0;
        Ok(())
    }

    fn busy_wait(&mut self) -> Result<(), Ssd1680Error> {
        Ok(())
    }
}

fn wire(command: Command) -> Vec<u8> {
    let mut transport = Transport::new(MockInterface::new());
    command.execute(&mut transport).unwrap();
    transport.interface().data().to_vec()
}

#[test]
fn test_command_execute() {
    let mut interface = Transport::new(MockInterface::new());
    let upper = 0x12;
    let lower = 0x34;
    let scanning_seq_and_dir = 1;
    let command = Command::DriverOutputControl(0x1234, scanning_seq_and_dir);

    command.execute(&mut interface).unwrap();
    assert_eq!(
        interface.interface().data(),
        &[0x01, lower, upper, scanning_seq_and_dir]
    );
}

#[test]
fn encode_multi_byte_parameters_least_significant_first() {
    assert_eq!(
        Command::DriverOutputControl(0x1234, 7).encode(),
        Ok((0x01, vec![0x34, 0x12, 7]))
    );
    assert_eq!(Command::YAddress(0x0127).encode(), Ok((0x4F, vec![0x27, 0x01])));
    assert_eq!(
        Command::StartEndYPosition(0x0102, 0x0304).encode(),
        Ok((0x45, vec![0x02, 0x01, 0x04, 0x03]))
    );
    assert_eq!(
        Command::WriteTemperatureSensor(0x6400).encode(),
        Ok((0x1A, vec![0x00, 0x64]))
    );
    assert_eq!(
        Command::GateScanStartPosition(295).encode(),
        Ok((0x0F, vec![0x27, 0x01]))
    );
}

#[test]
fn encode_data_entry_mode_bit_layout() {
    assert_eq!(
        Command::DataEntryMode(DataEntryMode::IncrementYIncrementX, IncrementAxis::Horizontal)
            .encode(),
        Ok((0x11, vec![0b011]))
    );
    assert_eq!(
        Command::DataEntryMode(DataEntryMode::IncrementXDecrementY, IncrementAxis::Vertical)
            .encode(),
        Ok((0x11, vec![0b101]))
    );
    assert_eq!(
        Command::DataEntryMode(DataEntryMode::DecrementXDecrementY, IncrementAxis::Vertical)
            .encode(),
        Ok((0x11, vec![0b100]))
    );
}

#[test]
fn encode_option_registers() {
    assert_eq!(
        Command::UpdateDisplayOption1(
            RamOption::Bypass,
            RamOption::Invert,
            SourceOption::SourceFromS8ToS167
        )
        .encode(),
        Ok((0x21, vec![0x48, 0x80]))
    );
    assert_eq!(
        Command::UpdateDisplayOption2(
            DisplayUpdateSequenceOption::EnableClockSignal_EnableAnalog_DisplayMode2_DisableAnalog_DisableOscillator
        )
        .encode(),
        Ok((0x22, vec![0xCF]))
    );
    assert_eq!(
        Command::TemperatureSensorSelection(TemperatureSensor::External).encode(),
        Ok((0x18, vec![0x48]))
    );
    assert_eq!(
        Command::DeepSleepMode(DeepSleepMode::DiscardRAM).encode(),
        Ok((0x10, vec![0b11]))
    );
}

#[test]
fn encode_opcodes_of_the_register_map() {
    assert_eq!(wire(Command::SoftReset), vec![0x12]);
    assert_eq!(wire(Command::UpdateDisplay), vec![0x20]);
    assert_eq!(wire(Command::WriteVCOM(0x36)), vec![0x2C, 0x36]);
    assert_eq!(wire(Command::DummyLinePeriod(127)), vec![0x3A, 127]);
    assert_eq!(wire(Command::GateLineWidth(0x0B)), vec![0x3B, 0x0B]);
    assert_eq!(wire(Command::BorderWaveform(0x05)), vec![0x3C, 0x05]);
    assert_eq!(wire(Command::StartEndXPosition(1, 21)), vec![0x44, 1, 21]);
    assert_eq!(wire(Command::XAddress(3)), vec![0x4E, 3]);
    assert_eq!(wire(Command::AnalogBlockControl(0x54)), vec![0x74, 0x54]);
    assert_eq!(wire(Command::DigitalBlockControl(0x3B)), vec![0x7E, 0x3B]);
    assert_eq!(wire(Command::GateDrivingVoltage(0x17)), vec![0x03, 0x17]);
    assert_eq!(wire(Command::SourceDrivingVoltage(1, 2, 3)), vec![0x04, 1, 2, 3]);
    assert_eq!(wire(Command::BoosterEnable(1, 2, 3, 4)), vec![0x0C, 1, 2, 3, 4]);
}

#[test]
fn out_of_range_parameters_are_configuration_errors() {
    assert_eq!(
        Command::GateScanStartPosition(296).encode(),
        Err(Ssd1680Error::Configuration)
    );
    assert_eq!(
        Command::DummyLinePeriod(128).encode(),
        Err(Ssd1680Error::Configuration)
    );
    let mut transport = Transport::new(MockInterface::new());
    assert_eq!(
        Command::DummyLinePeriod(200).execute(&mut transport),
        Err(Ssd1680Error::Configuration)
    );
    assert_eq!(transport.interface().data(), &[] as &[u8]);
}

#[test]
fn buf_command_sends_opcode_then_payload() {
    let mut transport = Transport::new(MockInterface::new());
    BufCommand::WriteBlackData(&[1, 2, 3])
        .execute(&mut transport)
        .unwrap();
    BufCommand::WriteRedData(&[9]).execute(&mut transport).unwrap();
    BufCommand::WriteLUT(&[]).execute(&mut transport).unwrap();
    assert_eq!(transport.interface().data(), &[0x24, 1, 2, 3, 0x26, 9, 0x32]);
}

#[test]
fn commands_without_encoding_are_refused() {
    assert_eq!(
        Command::ReadTemperatureSensor(0).encode(),
        Err(Ssd1680Error::Configuration)
    );
    assert_eq!(
        Command::EnterVCOMSensing.encode(),
        Err(Ssd1680Error::Configuration)
    );
    let mut transport = Transport::new(MockInterface::new());
    assert_eq!(
        Command::AutoWriteBlackPattern(1).execute(&mut transport),
        Err(Ssd1680Error::Configuration)
    );
    assert_eq!(transport.interface().data(), &[] as &[u8]);
}

struct FailingCommand {
    commands: usize,
    data_calls: usize,
}

impl DisplayInterface for FailingCommand {
    fn send_command(&mut self, _command: u8) -> Result<(), Ssd1680Error> {
        self.commands += 1;
        Err(Ssd1680Error::Transport)
    }

    fn send_data(&mut self, _data: &[u8]) -> Result<(), Ssd1680Error> {
        self.data_calls += 1;
        Ok(())
    }

    fn reset(&mut self) -> Result<(), Ssd1680Error> {
        Ok(())
    }

    fn busy_wait(&mut self) -> Result<(), Ssd1680Error> {
        Ok(())
    }
}

#[test]
fn failed_command_byte_is_not_retried() {
    let mut transport = Transport::new(FailingCommand {
        commands: 0,
        data_calls: 0,
    });
    assert_eq!(
        Command::DriverOutputControl(0x1234, 1).execute(&mut transport),
        Err(Ssd1680Error::Transport)
    );
    assert_eq!(
        BufCommand::WriteBlackData(&[1, 2]).execute(&mut transport),
        Err(Ssd1680Error::Transport)
    );
    assert_eq!(transport.interface().commands, 2);
    assert_eq!(transport.interface().data_calls, 0);
}
