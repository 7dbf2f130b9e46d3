//! Commands of the GDEW0213I5F controller.

use vstd::prelude::*;

verus! {

/// The controller's command set.
///
/// For the parameters and defaults of each command see the panel's datasheet.
#[allow(non_camel_case_types)]
#[derive(Clone, Copy, Debug, PartialEq, Eq, Structural)]
pub enum Command {
    PANEL_SETTING,
    POWER_SETTING,
    POWER_OFF,
    POWER_OFF_SEQUENCE_SETTING,
    POWER_ON,
    POWER_ON_MEASURE,
    BOOSTER_SOFT_START,
    DEEP_SLEEP,
    DISPLAY_START_TRANSMISSION_1,
    DATA_STOP,
    DISPLAY_REFRESH,
    DISPLAY_START_TRANSMISSION_2,
    AUTO_SEQUENCE,
    VCOM_LUT,
    W2W_LUT,
    B2W_LUT,
    W2B_LUT,
    B2B_LUT,
    LUT_OPTION,
    PLL_CONTROL,
    TEMPERATURE_SENSOR_CALIBRATION,
    TEMPERATURE_SENSOR_SELECTION,
    TEMPERATURE_SENSOR_WRITE,
    TEMPERATURE_SENSOR_READ,
    PANEL_BREAK_CHECK,
    VCOM_AND_DATA_INTERVAL_SETTING,
    LOW_POWER_DETECTION,
    TCON_SETTING,
    RESOLUTION_SETTING,
    GATE_SOURCE_START_SETTING,
    REVISION,
    GET_STATUS,
    AUTO_MEASUREMENT_VCOM,
    READ_VCOM_VALUE,
    VCM_DC_SETTING,
    PARTIAL_WINDOW,
    PARTIAL_IN,
    PARTIAL_OUT,
    PROGRAM_MODE,
    ACTIVE_PROGRAMMING,
    READ_OTP,
    CASCADE_SETTING,
    POWER_SAVING,
    LVD_VOLTAGE_SELECT,
    FORCE_TEMPERATURE,
}

impl Command {
    /// The datasheet's register map: the byte that selects each command.
    pub open spec fn spec_address(self) -> u8 {
        match self {
            Command::PANEL_SETTING => 0x00,
            Command::POWER_SETTING => 0x01,
            Command::POWER_OFF => 0x02,
            Command::POWER_OFF_SEQUENCE_SETTING => 0x03,
            Command::POWER_ON => 0x04,
            Command::POWER_ON_MEASURE => 0x05,
            Command::BOOSTER_SOFT_START => 0x06,
            Command::DEEP_SLEEP => 0x07,
            Command::DISPLAY_START_TRANSMISSION_1 => 0x10,
            Command::DATA_STOP => 0x11,
            Command::DISPLAY_REFRESH => 0x12,
            Command::DISPLAY_START_TRANSMISSION_2 => 0x13,
            Command::AUTO_SEQUENCE => 0x17,
            Command::VCOM_LUT => 0x20,
            Command::W2W_LUT => 0x21,
            Command::B2W_LUT => 0x22,
            Command::W2B_LUT => 0x23,
            Command::B2B_LUT => 0x24,
            Command::LUT_OPTION => 0x2a,
            Command::PLL_CONTROL => 0x30,
            Command::TEMPERATURE_SENSOR_CALIBRATION => 0x40,
            Command::TEMPERATURE_SENSOR_SELECTION => 0x41,
            Command::TEMPERATURE_SENSOR_WRITE => 0x42,
            Command::TEMPERATURE_SENSOR_READ => 0x43,
            Command::PANEL_BREAK_CHECK => 0x44,
            Command::VCOM_AND_DATA_INTERVAL_SETTING => 0x50,
            Command::LOW_POWER_DETECTION => 0x51,
            Command::TCON_SETTING => 0x60,
            Command::RESOLUTION_SETTING => 0x61,
            Command::GATE_SOURCE_START_SETTING => 0x65,
            Command::REVISION => 0x70,
            Command::GET_STATUS => 0x71,
            Command::AUTO_MEASUREMENT_VCOM => 0x80,
            Command::READ_VCOM_VALUE => 0x81,
            Command::VCM_DC_SETTING => 0x82,
            Command::PARTIAL_WINDOW => 0x90,
            Command::PARTIAL_IN => 0x91,
            Command::PARTIAL_OUT => 0x92,
            Command::PROGRAM_MODE => 0xa0,
            Command::ACTIVE_PROGRAMMING => 0xa1,
            Command::READ_OTP => 0xa2,
            Command::CASCADE_SETTING => 0xe0,
            Command::POWER_SAVING => 0xe3,
            Command::LVD_VOLTAGE_SELECT => 0xe4,
            Command::FORCE_TEMPERATURE => 0xe5,
        }
    }

    /// Returns the address of the command: the byte sent with the data/command
    /// line low to select it.
    #[verifier::when_used_as_spec(spec_address)]
    pub fn address(self) -> (r: u8)
        ensures
            r == self.spec_address(),
    {
        match self {
            Command::PANEL_SETTING => 0x00,
            Command::POWER_SETTING => 0x01,
            Command::POWER_OFF => 0x02,
            Command::POWER_OFF_SEQUENCE_SETTING => 0x03,
            Command::POWER_ON => 0x04,
            Command::POWER_ON_MEASURE => 0x05,
            Command::BOOSTER_SOFT_START => 0x06,
            Command::DEEP_SLEEP => 0x07,
            Command::DISPLAY_START_TRANSMISSION_1 => 0x10,
            Command::DATA_STOP => 0x11,
            Command::DISPLAY_REFRESH => 0x12,
            Command::DISPLAY_START_TRANSMISSION_2 => 0x13,
            Command::AUTO_SEQUENCE => 0x17,
            Command::VCOM_LUT => 0x20,
            Command::W2W_LUT => 0x21,
            Command::B2W_LUT => 0x22,
            Command::W2B_LUT => 0x23,
            Command::B2B_LUT => 0x24,
            Command::LUT_OPTION => 0x2a,
            Command::PLL_CONTROL => 0x30,
            Command::TEMPERATURE_SENSOR_CALIBRATION => 0x40,
            Command::TEMPERATURE_SENSOR_SELECTION => 0x41,
            Command::TEMPERATURE_SENSOR_WRITE => 0x42,
            Command::TEMPERATURE_SENSOR_READ => 0x43,
            Command::PANEL_BREAK_CHECK => 0x44,
            Command::VCOM_AND_DATA_INTERVAL_SETTING => 0x50,
            Command::LOW_POWER_DETECTION => 0x51,
            Command::TCON_SETTING => 0x60,
            Command::RESOLUTION_SETTING => 0x61,
            Command::GATE_SOURCE_START_SETTING => 0x65,
            Command::REVISION => 0x70,
            Command::GET_STATUS => 0x71,
            Command::AUTO_MEASUREMENT_VCOM => 0x80,
            Command::READ_VCOM_VALUE => 0x81,
            Command::VCM_DC_SETTING => 0x82,
            Command::PARTIAL_WINDOW => 0x90,
            Command::PARTIAL_IN => 0x91,
            Command::PARTIAL_OUT => 0x92,
            Command::PROGRAM_MODE => 0xa0,
            Command::ACTIVE_PROGRAMMING => 0xa1,
            Command::READ_OTP => 0xa2,
            Command::CASCADE_SETTING => 0xe0,
            Command::POWER_SAVING => 0xe3,
            Command::LVD_VOLTAGE_SELECT => 0xe4,
            Command::FORCE_TEMPERATURE => 0xe5,
        }
    }
}

/// No two commands share an address, so the byte on the wire identifies the
/// command that was sent.
pub proof fn lemma_address_identifies_command(a: Command, b: Command)
    ensures
        a.address() == b.address() <==> a == b,
{
}

} // verus!
