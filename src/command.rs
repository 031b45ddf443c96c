use vstd::prelude::*;

use crate::error::Ssd1680Error;
use crate::interface::{Call, DisplayInterface, Transport};

verus! {

/// Number of gate outputs; `GateScanStartPosition` must lie below it.
pub const MAX_GATES: u16 = 296;

/// Largest accepted `DummyLinePeriod`.
pub const MAX_DUMMY_LINE_PERIOD: u8 = 127;

/// Opcode of the black/white RAM write.
pub const WRITE_BLACK_DATA: u8 = 0x24;

/// Opcode of the red RAM write.
pub const WRITE_RED_DATA: u8 = 0x26;

/// Opcode of the waveform lookup table write.
pub const WRITE_LUT: u8 = 0x32;

/// The least significant byte of `v`.
pub open spec fn low_byte(v: u16) -> u8 {
    (v % 256) as u8
}

/// The most significant byte of `v`.
pub open spec fn high_byte(v: u16) -> u8 {
    (v / 256) as u8
}

fn split_le(v: u16) -> (r: (u8, u8))
    ensures
        r.0 == low_byte(v),
        r.1 == high_byte(v),
{
    ((v % 256) as u8, (v / 256) as u8)
}

/// The calls that send `opcode` and then, unless there are none, `data`.
pub open spec fn command_calls(opcode: u8, data: Seq<u8>) -> Seq<Call> {
    if data.len() == 0 {
        seq![Call::Command(opcode)]
    } else {
        seq![Call::Command(opcode), Call::Data(data)]
    }
}

/// Send `opcode`, then `data` unless it is empty, stopping at the first failure.
fn send_command_with_data<I: DisplayInterface>(
    interface: &mut Transport<I>,
    opcode: u8,
    data: &[u8],
) -> (r: Result<(), Ssd1680Error>)
    ensures
        crate::interface::follows(
            old(interface).calls(),
            command_calls(opcode, data@),
            final(interface).calls(),
            r,
        ),
{
    let ghost before = interface.calls();
    let r = interface.send_command(opcode);
    proof {
        crate::interface::lemma_follows_single(before, Call::Command(opcode), r);
    }
    if r.is_err() {
        proof {
            if data@.len() > 0 {
                crate::interface::lemma_follows_stopped(
                    before,
                    seq![Call::Command(opcode)],
                    seq![Call::Data(data@)],
                    interface.calls(),
                    r,
                );
                assert(seq![Call::Command(opcode)] + seq![Call::Data(data@)] =~= command_calls(
                    opcode,
                    data@,
                ));
            }
        }
        return r;
    }
    if data.len() == 0 {
        Ok(())
    } else {
        let r = interface.send_data(data);
        proof {
            assert(before + crate::interface::succeeded(seq![Call::Command(opcode)])
                =~= before.push((Call::Command(opcode), None::<Ssd1680Error>)));
            crate::interface::lemma_follows_single(
                before + crate::interface::succeeded(seq![Call::Command(opcode)]),
                Call::Data(data@),
                r,
            );
            crate::interface::lemma_follows_then(
                before,
                seq![Call::Command(opcode)],
                seq![Call::Data(data@)],
                interface.calls(),
                r,
            );
            assert(seq![Call::Command(opcode)] + seq![Call::Data(data@)] =~= command_calls(
                opcode,
                data@,
            ));
        }
        r
    }
}

/// The axis along which the RAM address advances first after a byte is written.
#[derive(Clone, Copy, Debug, PartialEq, Eq, Structural)]
pub enum IncrementAxis {
    /// X direction
    Horizontal,
    /// Y direction
    Vertical,
}

/// The direction in which the X and Y RAM addresses advance.
#[derive(Clone, Copy, Debug, PartialEq, Eq, Structural)]
pub enum DataEntryMode {
    DecrementXDecrementY,
    IncrementXDecrementY,
    DecrementXIncrementY,
    IncrementYIncrementX,
}

#[derive(Clone, Copy, Debug, PartialEq, Eq, Structural)]
pub enum TemperatureSensor {
    Internal,
    External,
}

#[allow(non_camel_case_types)]
#[derive(Clone, Copy, Debug, PartialEq, Eq, Structural)]
pub enum DisplayUpdateSequenceOption {
    EnableClockSignal,
    DisableClockSignal,
    EnableClockSignal_EnableAnalog,
    DisableAnalog_DisableClockSignal,
    EnableClockSignal_LoadLutMode1_DisableClockSignal,
    EnableClockSignal_LoadLutMode2_DisableClockSignal,
    EnableClockSignal_LoadTemp_LoadLutMode1_DisableClockSignal,
    EnableClockSignal_LoadTemp_LoadLutMode2_DisableClockSignal,
    EnableClockSignal_EnableAnalog_DisplayMode1_DisableAnalog_DisableOscillator,
    EnableClockSignal_EnableAnalog_DisplayMode2_DisableAnalog_DisableOscillator,
    EnableClockSignal_LoadTemp_EnableAnalog_DisplayMode1_DisableAnalog_DisableOscillator,
    EnableClockSignal_LoadTemp_EnableAnalog_DisplayMode2_DisableAnalog_DisableOscillator,
}

#[derive(Clone, Copy, Debug, PartialEq, Eq, Structural)]
pub enum RamOption {
    Normal,
    Bypass,
    Invert,
}

#[derive(Clone, Copy, Debug, PartialEq, Eq, Structural)]
pub enum SourceOption {
    SourceFromS0ToS175,
    SourceFromS8ToS167,
}

#[derive(Clone, Copy, Debug, PartialEq, Eq, Structural)]
pub enum DeepSleepMode {
    /// Not sleeping
    Normal,
    /// Deep sleep with RAM preserved
    PreserveRAM,
    /// Deep sleep RAM not preserved
    DiscardRAM,
}

impl DataEntryMode {
    /// The two low bits of the data entry register.
    pub open spec fn bits(self) -> u8 {
        match self {
            DataEntryMode::DecrementXDecrementY => 0b00,
            DataEntryMode::IncrementXDecrementY => 0b01,
            DataEntryMode::DecrementXIncrementY => 0b10,
            DataEntryMode::IncrementYIncrementX => 0b11,
        }
    }
}

impl IncrementAxis {
    /// The axis flag, at bit position 2 of the data entry register.
    pub open spec fn bits(self) -> u8 {
        match self {
            IncrementAxis::Horizontal => 0b000,
            IncrementAxis::Vertical => 0b100,
        }
    }
}

impl TemperatureSensor {
    pub open spec fn bits(self) -> u8 {
        match self {
            TemperatureSensor::External => 0x48,
            TemperatureSensor::Internal => 0x80,
        }
    }
}

impl DisplayUpdateSequenceOption {
    pub open spec fn bits(self) -> u8 {
        match self {
            DisplayUpdateSequenceOption::EnableClockSignal => 0x80,
            DisplayUpdateSequenceOption::DisableClockSignal => 0x01,
            DisplayUpdateSequenceOption::EnableClockSignal_EnableAnalog => 0xC0,
            DisplayUpdateSequenceOption::DisableAnalog_DisableClockSignal => 0x03,
            DisplayUpdateSequenceOption::EnableClockSignal_LoadLutMode1_DisableClockSignal => 0x91,
            DisplayUpdateSequenceOption::EnableClockSignal_LoadLutMode2_DisableClockSignal => 0x99,
            DisplayUpdateSequenceOption::EnableClockSignal_LoadTemp_LoadLutMode1_DisableClockSignal => 0xB1,
            DisplayUpdateSequenceOption::EnableClockSignal_LoadTemp_LoadLutMode2_DisableClockSignal => 0xB9,
            DisplayUpdateSequenceOption::EnableClockSignal_EnableAnalog_DisplayMode1_DisableAnalog_DisableOscillator => 0xC7,
            DisplayUpdateSequenceOption::EnableClockSignal_EnableAnalog_DisplayMode2_DisableAnalog_DisableOscillator => 0xCF,
            DisplayUpdateSequenceOption::EnableClockSignal_LoadTemp_EnableAnalog_DisplayMode1_DisableAnalog_DisableOscillator => 0xF7,
            DisplayUpdateSequenceOption::EnableClockSignal_LoadTemp_EnableAnalog_DisplayMode2_DisableAnalog_DisableOscillator => 0xFF,
        }
    }
}

impl RamOption {
    /// The black/white RAM option, at bits 6 and 7.
    pub open spec fn black_bits(self) -> u8 {
        match self {
            RamOption::Normal => 0b0000_0000,
            RamOption::Bypass => 0b0100_0000,
            RamOption::Invert => 0b1000_0000,
        }
    }

    /// The red RAM option, at bits 2 and 3.
    pub open spec fn red_bits(self) -> u8 {
        match self {
            RamOption::Normal => 0b0000_0000,
            RamOption::Bypass => 0b0000_0100,
            RamOption::Invert => 0b0000_1000,
        }
    }
}

impl SourceOption {
    pub open spec fn bits(self) -> u8 {
        match self {
            SourceOption::SourceFromS0ToS175 => 0b0000_0000,
            SourceOption::SourceFromS8ToS167 => 0b1000_0000,
        }
    }
}

impl DeepSleepMode {
    pub open spec fn bits(self) -> u8 {
        match self {
            DeepSleepMode::Normal => 0b00,
            DeepSleepMode::PreserveRAM => 0b01,
            DeepSleepMode::DiscardRAM => 0b11,
        }
    }
}

/// A command that can be issued to the controller.
#[derive(Clone, Copy, Debug, PartialEq, Eq, Structural)]
pub enum Command {
    /// Set the MUX of gate lines, scanning sequence and direction
    /// 0: MAX gate lines
    /// 1: Gate scanning sequence and direction
    DriverOutputControl(u16, u8),
    /// Set gate driving voltage.
    GateDrivingVoltage(u8),
    /// Set the source driving voltage.
    /// 0: VSH1
    /// 1: VSH2
    /// 2: VSL
    SourceDrivingVoltage(u8, u8, u8),
    /// Booster enable with phases 1 to 3 for soft start current and duration setting
    /// 0: Soft start setting for phase 1
    /// 1: Soft start setting for phase 2
    /// 2: Soft start setting for phase 3
    /// 3: Duration setting
    BoosterEnable(u8, u8, u8, u8),
    /// Set gate driver scanning start position; must be below `MAX_GATES`.
    GateScanStartPosition(u16),
    /// Set deep sleep mode
    DeepSleepMode(DeepSleepMode),
    /// Set the data entry mode and increment axis
    DataEntryMode(DataEntryMode, IncrementAxis),
    /// Perform a soft reset, and reset all parameters to their default values
    /// BUSY will be high when in progress.
    SoftReset,
    /// Specify internal or external temperature sensor
    TemperatureSensorSelection(TemperatureSensor),
    /// Write to the temperature sensor register
    WriteTemperatureSensor(u16),
    /// Read from the temperature sensor register (cannot be sent)
    ReadTemperatureSensor(u16),
    /// Write a command to the external temperature sensor (cannot be sent)
    WriteExternalTemperatureSensor(u8, u8, u8),
    /// Activate display update sequence. BUSY will be high when in progress.
    UpdateDisplay,
    /// Set RAM content options for update display command.
    /// 0: Black/White RAM option
    /// 1: Red RAM option
    /// 2: Source option
    UpdateDisplayOption1(RamOption, RamOption, SourceOption),
    /// Set display update sequence options
    UpdateDisplayOption2(DisplayUpdateSequenceOption),
    /// Enter VCOM sensing and hold for duration defined by VCOMSenseDuration (cannot be sent)
    EnterVCOMSensing,
    /// Set VCOM sensing duration (cannot be sent)
    VCOMSenseDuration(u8),
    /// Write VCOM register from MCU interface
    WriteVCOM(u8),
    /// Set the number of dummy line period in terms of gate line width (TGate);
    /// at most `MAX_DUMMY_LINE_PERIOD`.
    DummyLinePeriod(u8),
    /// Set gate line width (TGate)
    GateLineWidth(u8),
    /// Select border waveform for VBD
    BorderWaveform(u8),
    /// Set the start/end positions of the window address in the X direction
    /// 0: Start
    /// 1: End
    StartEndXPosition(u8, u8),
    /// Set the start/end positions of the window address in the Y direction
    /// 0: Start
    /// 1: End
    StartEndYPosition(u16, u16),
    /// Auto write red RAM for regular pattern (cannot be sent)
    AutoWriteRedPattern(u8),
    /// Auto write black RAM for regular pattern (cannot be sent)
    AutoWriteBlackPattern(u8),
    /// Set RAM X address
    XAddress(u8),
    /// Set RAM Y address
    YAddress(u16),
    /// Set analog block control
    AnalogBlockControl(u8),
    /// Set digital block control
    DigitalBlockControl(u8),
}

impl Command {
    /// Whether the command has an encoding; the others exist in the
    /// register map but this driver never sends them.
    pub open spec fn is_supported(self) -> bool {
        !(self is ReadTemperatureSensor || self is WriteExternalTemperatureSensor
            || self is EnterVCOMSensing || self is VCOMSenseDuration
            || self is AutoWriteRedPattern || self is AutoWriteBlackPattern)
    }

    /// Whether the parameters lie in the ranges the controller accepts.
    pub open spec fn is_in_range(self) -> bool {
        match self {
            Command::GateScanStartPosition(position) => position < MAX_GATES,
            Command::DummyLinePeriod(period) => period <= MAX_DUMMY_LINE_PERIOD,
            _ => true,
        }
    }

    /// The opcode byte of the command.
    pub open spec fn opcode(self) -> u8 {
        match self {
            Command::DriverOutputControl(..) => 0x01,
            Command::GateDrivingVoltage(..) => 0x03,
            Command::SourceDrivingVoltage(..) => 0x04,
            Command::BoosterEnable(..) => 0x0C,
            Command::GateScanStartPosition(..) => 0x0F,
            Command::DeepSleepMode(..) => 0x10,
            Command::DataEntryMode(..) => 0x11,
            Command::SoftReset => 0x12,
            Command::TemperatureSensorSelection(..) => 0x18,
            Command::WriteTemperatureSensor(..) => 0x1A,
            Command::ReadTemperatureSensor(..) => 0x1B,
            Command::WriteExternalTemperatureSensor(..) => 0x1C,
            Command::UpdateDisplay => 0x20,
            Command::UpdateDisplayOption1(..) => 0x21,
            Command::UpdateDisplayOption2(..) => 0x22,
            Command::EnterVCOMSensing => 0x28,
            Command::VCOMSenseDuration(..) => 0x29,
            Command::WriteVCOM(..) => 0x2C,
            Command::DummyLinePeriod(..) => 0x3A,
            Command::GateLineWidth(..) => 0x3B,
            Command::BorderWaveform(..) => 0x3C,
            Command::StartEndXPosition(..) => 0x44,
            Command::StartEndYPosition(..) => 0x45,
            Command::AutoWriteRedPattern(..) => 0x46,
            Command::AutoWriteBlackPattern(..) => 0x47,
            Command::XAddress(..) => 0x4E,
            Command::YAddress(..) => 0x4F,
            Command::AnalogBlockControl(..) => 0x74,
            Command::DigitalBlockControl(..) => 0x7E,
        }
    }

    /// The parameter bytes that follow the opcode; multi-byte integers go
    /// least significant byte first.
    pub open spec fn params(self) -> Seq<u8> {
        match self {
            Command::DriverOutputControl(gate_lines, scanning) => seq![
                low_byte(gate_lines),
                high_byte(gate_lines),
                scanning,
            ],
            Command::GateDrivingVoltage(voltages) => seq![voltages],
            Command::SourceDrivingVoltage(vsh1, vsh2, vsl) => seq![vsh1, vsh2, vsl],
            Command::BoosterEnable(phase1, phase2, phase3, duration) => seq![
                phase1,
                phase2,
                phase3,
                duration,
            ],
            Command::GateScanStartPosition(position) => seq![
                low_byte(position),
                high_byte(position),
            ],
            Command::DeepSleepMode(mode) => seq![mode.bits()],
            Command::DataEntryMode(mode, axis) => seq![axis.bits() | mode.bits()],
            Command::TemperatureSensorSelection(sensor) => seq![sensor.bits()],
            Command::WriteTemperatureSensor(value) => seq![low_byte(value), high_byte(value)],
            Command::UpdateDisplayOption1(black, red, source) => seq![
                black.black_bits() | red.red_bits(),
                source.bits(),
            ],
            Command::UpdateDisplayOption2(option) => seq![option.bits()],
            Command::WriteVCOM(value) => seq![value],
            Command::DummyLinePeriod(period) => seq![period],
            Command::GateLineWidth(tgate) => seq![tgate],
            Command::BorderWaveform(waveform) => seq![waveform],
            Command::StartEndXPosition(start, end) => seq![start, end],
            Command::StartEndYPosition(start, end) => seq![
                low_byte(start),
                high_byte(start),
                low_byte(end),
                high_byte(end),
            ],
            Command::XAddress(address) => seq![address],
            Command::YAddress(address) => seq![low_byte(address), high_byte(address)],
            Command::AnalogBlockControl(value) => seq![value],
            Command::DigitalBlockControl(value) => seq![value],
            _ => seq![],
        }
    }

    /// Whether the command can be sent: it has an encoding and its
    /// parameters are in range.
    pub open spec fn is_sendable(self) -> bool {
        self.is_supported() && self.is_in_range()
    }

    /// The interface calls that send the command.
    pub open spec fn calls(self) -> Seq<Call> {
        command_calls(self.opcode(), self.params())
    }

    /// The opcode and parameter bytes of the command, or `Configuration`
    /// when it has no encoding or a parameter lies outside its range.
    pub fn encode(&self) -> (r: Result<(u8, Vec<u8>), Ssd1680Error>)
        ensures
            r is Ok <==> self.is_sendable(),
            r is Ok ==> r->Ok_0.0 == self.opcode() && r->Ok_0.1@ == self.params(),
            r is Err ==> r->Err_0 == Ssd1680Error::Configuration,
    {
        match *self {
            Command::DriverOutputControl(gate_lines, scanning) => {
                let (lower, upper) = split_le(gate_lines);
                Ok((0x01, vec![lower, upper, scanning]))
            },
            Command::GateDrivingVoltage(voltages) => Ok((0x03, vec![voltages])),
            Command::SourceDrivingVoltage(vsh1, vsh2, vsl) => Ok((0x04, vec![vsh1, vsh2, vsl])),
            Command::BoosterEnable(phase1, phase2, phase3, duration) => {
                Ok((0x0C, vec![phase1, phase2, phase3, duration]))
            },
            Command::GateScanStartPosition(position) => {
                if position >= MAX_GATES {
                    return Err(Ssd1680Error::Configuration);
                }
                let (lower, upper) = split_le(position);
                Ok((0x0F, vec![lower, upper]))
            },
            Command::DeepSleepMode(mode) => {
                let bits: u8 = match mode {
                    DeepSleepMode::Normal => 0b00,
                    DeepSleepMode::PreserveRAM => 0b01,
                    DeepSleepMode::DiscardRAM => 0b11,
                };
                Ok((0x10, vec![bits]))
            },
            Command::DataEntryMode(mode, axis) => {
                let mode_bits: u8 = match mode {
                    DataEntryMode::DecrementXDecrementY => 0b00,
                    DataEntryMode::IncrementXDecrementY => 0b01,
                    DataEntryMode::DecrementXIncrementY => 0b10,
                    DataEntryMode::IncrementYIncrementX => 0b11,
                };
                let axis_bits: u8 = match axis {
                    IncrementAxis::Horizontal => 0b000,
                    IncrementAxis::Vertical => 0b100,
                };
                Ok((0x11, vec![axis_bits | mode_bits]))
            },
            Command::SoftReset => Ok((0x12, Vec::new())),
            Command::TemperatureSensorSelection(sensor) => {
                let bits: u8 = match sensor {
                    TemperatureSensor::External => 0x48,
                    TemperatureSensor::Internal => 0x80,
                };
                Ok((0x18, vec![bits]))
            },
            Command::WriteTemperatureSensor(value) => {
                let (lower, upper) = split_le(value);
                Ok((0x1A, vec![lower, upper]))
            },
            Command::UpdateDisplay => Ok((0x20, Vec::new())),
            Command::UpdateDisplayOption1(black, red, source) => {
                let black_bits: u8 = match black {
                    RamOption::Normal => 0b0000_0000,
                    RamOption::Bypass => 0b0100_0000,
                    RamOption::Invert => 0b1000_0000,
                };
                let red_bits: u8 = match red {
                    RamOption::Normal => 0b0000_0000,
                    RamOption::Bypass => 0b0000_0100,
                    RamOption::Invert => 0b0000_1000,
                };
                let source_bits: u8 = match source {
                    SourceOption::SourceFromS0ToS175 => 0b0000_0000,
                    SourceOption::SourceFromS8ToS167 => 0b1000_0000,
                };
                Ok((0x21, vec![black_bits | red_bits, source_bits]))
            },
            Command::UpdateDisplayOption2(option) => {
                let bits: u8 = match option {
                    DisplayUpdateSequenceOption::EnableClockSignal => 0x80,
                    DisplayUpdateSequenceOption::DisableClockSignal => 0x01,
                    DisplayUpdateSequenceOption::EnableClockSignal_EnableAnalog => 0xC0,
                    DisplayUpdateSequenceOption::DisableAnalog_DisableClockSignal => 0x03,
                    DisplayUpdateSequenceOption::EnableClockSignal_LoadLutMode1_DisableClockSignal => 0x91,
                    DisplayUpdateSequenceOption::EnableClockSignal_LoadLutMode2_DisableClockSignal => 0x99,
                    DisplayUpdateSequenceOption::EnableClockSignal_LoadTemp_LoadLutMode1_DisableClockSignal => 0xB1,
                    DisplayUpdateSequenceOption::EnableClockSignal_LoadTemp_LoadLutMode2_DisableClockSignal => 0xB9,
                    DisplayUpdateSequenceOption::EnableClockSignal_EnableAnalog_DisplayMode1_DisableAnalog_DisableOscillator => 0xC7,
                    DisplayUpdateSequenceOption::EnableClockSignal_EnableAnalog_DisplayMode2_DisableAnalog_DisableOscillator => 0xCF,
                    DisplayUpdateSequenceOption::EnableClockSignal_LoadTemp_EnableAnalog_DisplayMode1_DisableAnalog_DisableOscillator => 0xF7,
                    DisplayUpdateSequenceOption::EnableClockSignal_LoadTemp_EnableAnalog_DisplayMode2_DisableAnalog_DisableOscillator => 0xFF,
                };
                Ok((0x22, vec![bits]))
            },
            Command::WriteVCOM(value) => Ok((0x2C, vec![value])),
            Command::DummyLinePeriod(period) => {
                if period > MAX_DUMMY_LINE_PERIOD {
                    return Err(Ssd1680Error::Configuration);
                }
                Ok((0x3A, vec![period]))
            },
            Command::GateLineWidth(tgate) => Ok((0x3B, vec![tgate])),
            Command::BorderWaveform(waveform) => Ok((0x3C, vec![waveform])),
            Command::StartEndXPosition(start, end) => Ok((0x44, vec![start, end])),
            Command::StartEndYPosition(start, end) => {
                let (start_lower, start_upper) = split_le(start);
                let (end_lower, end_upper) = split_le(end);
                Ok((0x45, vec![start_lower, start_upper, end_lower, end_upper]))
            },
            Command::XAddress(address) => Ok((0x4E, vec![address])),
            Command::YAddress(address) => {
                let (lower, upper) = split_le(address);
                Ok((0x4F, vec![lower, upper]))
            },
            Command::AnalogBlockControl(value) => Ok((0x74, vec![value])),
            Command::DigitalBlockControl(value) => Ok((0x7E, vec![value])),
            _ => Err(Ssd1680Error::Configuration),
        }
    }

    /// Send the command: its opcode, then its parameter bytes if it has any.
    /// A command that cannot be sent is refused with `Configuration` before
    /// any call.
    pub fn execute<I: DisplayInterface>(&self, interface: &mut Transport<I>) -> (r: Result<
        (),
        Ssd1680Error,
    >)
        ensures
            !self.is_sendable() ==> {
                &&& r == Err::<(), Ssd1680Error>(Ssd1680Error::Configuration)
                &&& final(interface).calls() == old(interface).calls()
            },
            self.is_sendable() ==> crate::interface::follows(
                old(interface).calls(),
                self.calls(),
                final(interface).calls(),
                r,
            ),
    {
        let (opcode, data) = self.encode()?;
        send_command_with_data(interface, opcode, data.as_slice())
    }
}

/// A command whose parameter is a borrowed payload of any length.
pub enum BufCommand<'buf> {
    /// Write to black/white RAM
    /// 1 = White
    /// 0 = Black
    WriteBlackData(&'buf [u8]),
    /// Write to red RAM
    /// 1 = Red
    /// 0 = Use contents of black/white RAM
    WriteRedData(&'buf [u8]),
    /// Write LUT register (70 bytes)
    WriteLUT(&'buf [u8]),
}

impl<'buf> BufCommand<'buf> {
    /// The opcode byte of the command.
    pub open spec fn opcode(&self) -> u8 {
        match *self {
            BufCommand::WriteBlackData(_) => WRITE_BLACK_DATA,
            BufCommand::WriteRedData(_) => WRITE_RED_DATA,
            BufCommand::WriteLUT(_) => WRITE_LUT,
        }
    }

    /// The payload sent after the opcode.
    pub open spec fn payload(&self) -> Seq<u8> {
        match *self {
            BufCommand::WriteBlackData(buffer) => buffer@,
            BufCommand::WriteRedData(buffer) => buffer@,
            BufCommand::WriteLUT(buffer) => buffer@,
        }
    }

    /// The interface calls that send the command.
    pub open spec fn calls(&self) -> Seq<Call> {
        command_calls(self.opcode(), self.payload())
    }

    /// Send the command: its opcode, then its payload if that is not empty.
    pub fn execute<I: DisplayInterface>(&self, interface: &mut Transport<I>) -> (r: Result<
        (),
        Ssd1680Error,
    >)
        ensures
            crate::interface::follows(
                old(interface).calls(),
                self.calls(),
                final(interface).calls(),
                r,
            ),
    {
        let (opcode, data): (u8, &[u8]) = match self {
            BufCommand::WriteBlackData(buffer) => (WRITE_BLACK_DATA, *buffer),
            BufCommand::WriteRedData(buffer) => (WRITE_RED_DATA, *buffer),
            BufCommand::WriteLUT(buffer) => (WRITE_LUT, *buffer),
        };
        send_command_with_data(interface, opcode, data)
    }
}

} // verus!
