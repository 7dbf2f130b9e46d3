//! Fixed parameter bytes and refresh waveforms of the GDEW0213I5F.
//!
//! These are the panel vendor's values. The driver sends them as they are and
//! reads no meaning into them.
//!
//! Each waveform table is written whole into one of the controller's five
//! look-up-table registers: 44 bytes for the common voltage, 42 for each pixel
//! transition.

use vstd::prelude::*;

verus! {

/// Parameters of `POWER_SETTING`: the voltage rails.
pub const POWER_SETTING_DATA: [u8; 5] = [0x03, 0x00, 0x2b, 0x2b, 0x03];

/// Parameters of `BOOSTER_SOFT_START`.
pub const BOOSTER_SOFT_START_DATA: [u8; 3] = [0x17, 0x17, 0x17];

/// Parameters of `PANEL_SETTING`.
pub const PANEL_SETTING_DATA: [u8; 2] = [0xbf, 0x0d];

/// Parameter of `PLL_CONTROL`: the frame rate.
pub const PLL_CONTROL_DATA: [u8; 1] = [0x3a];

/// Parameter of `VCM_DC_SETTING`.
pub const VCM_DC_SETTING_DATA: [u8; 1] = [0x08];

/// Parameter of `VCOM_AND_DATA_INTERVAL_SETTING` for a full refresh.
pub const VCOM_AND_DATA_INTERVAL_FULL: u8 = 0x97;

/// Parameter of `VCOM_AND_DATA_INTERVAL_SETTING` for a quick refresh.
pub const VCOM_AND_DATA_INTERVAL_QUICK: u8 = 0x47;

/// Check code that `DEEP_SLEEP` must carry. Without it the controller ignores
/// the command and stays awake.
pub const DEEP_SLEEP_CHECK_CODE: u8 = 0xa5;

/// Last byte of the `PARTIAL_WINDOW` parameters: scan inside and outside the
/// window.
pub const PARTIAL_WINDOW_SCAN_MODE: u8 = 0x01;

/// Common-voltage waveform of a full refresh.
pub const LUT_VCOM_DC: [u8; 44] = [
    0x00, 0x08, 0x00, 0x00, 0x00, 0x02,
    0x60, 0x28, 0x28, 0x00, 0x00, 0x01,
    0x00, 0x14, 0x00, 0x00, 0x00, 0x01,
    0x00, 0x12, 0x12, 0x00, 0x00, 0x01,
    0x00, 0x00, 0x00, 0x00, 0x00, 0x00,
    0x00, 0x00, 0x00, 0x00, 0x00, 0x00,
    0x00, 0x00, 0x00, 0x00, 0x00, 0x00,
    0x00, 0x00,
];

/// White-to-white waveform of a full refresh.
pub const LUT_WW: [u8; 42] = [
    0x40, 0x08, 0x00, 0x00, 0x00, 0x02,
    0x90, 0x28, 0x28, 0x00, 0x00, 0x01,
    0x40, 0x14, 0x00, 0x00, 0x00, 0x01,
    0xa0, 0x12, 0x12, 0x00, 0x00, 0x01,
    0x00, 0x00, 0x00, 0x00, 0x00, 0x00,
    0x00, 0x00, 0x00, 0x00, 0x00, 0x00,
    0x00, 0x00, 0x00, 0x00, 0x00, 0x00,
];

/// Black-to-white waveform of a full refresh.
pub const LUT_BW: [u8; 42] = [
    0x40, 0x17, 0x00, 0x00, 0x00, 0x02,
    0x90, 0x0f, 0x0f, 0x00, 0x00, 0x03,
    0x40, 0x0a, 0x01, 0x00, 0x00, 0x01,
    0xa0, 0x0e, 0x0e, 0x00, 0x00, 0x02,
    0x00, 0x00, 0x00, 0x00, 0x00, 0x00,
    0x00, 0x00, 0x00, 0x00, 0x00, 0x00,
    0x00, 0x00, 0x00, 0x00, 0x00, 0x00,
];

/// White-to-black waveform of a full refresh.
pub const LUT_WB: [u8; 42] = [
    0x80, 0x08, 0x00, 0x00, 0x00, 0x02,
    0x90, 0x28, 0x28, 0x00, 0x00, 0x01,
    0x80, 0x14, 0x00, 0x00, 0x00, 0x01,
    0x50, 0x12, 0x12, 0x00, 0x00, 0x01,
    0x00, 0x00, 0x00, 0x00, 0x00, 0x00,
    0x00, 0x00, 0x00, 0x00, 0x00, 0x00,
    0x00, 0x00, 0x00, 0x00, 0x00, 0x00,
];

/// Black-to-black waveform of a full refresh.
pub const LUT_BB: [u8; 42] = [
    0x80, 0x08, 0x00, 0x00, 0x00, 0x02,
    0x90, 0x28, 0x28, 0x00, 0x00, 0x01,
    0x80, 0x14, 0x00, 0x00, 0x00, 0x01,
    0x50, 0x12, 0x12, 0x00, 0x00, 0x01,
    0x00, 0x00, 0x00, 0x00, 0x00, 0x00,
    0x00, 0x00, 0x00, 0x00, 0x00, 0x00,
    0x00, 0x00, 0x00, 0x00, 0x00, 0x00,
];

/// Common-voltage waveform of a quick refresh.
pub const LUT_VCOM_DC_PARTIAL: [u8; 44] = [
    0x00, 0x19, 0x01, 0x00, 0x00, 0x01,
    0x00, 0x00, 0x00, 0x00, 0x00, 0x00,
    0x00, 0x00, 0x00, 0x00, 0x00, 0x00,
    0x00, 0x00, 0x00, 0x00, 0x00, 0x00,
    0x00, 0x00, 0x00, 0x00, 0x00, 0x00,
    0x00, 0x00, 0x00, 0x00, 0x00, 0x00,
    0x00, 0x00, 0x00, 0x00, 0x00, 0x00,
    0x00, 0x00,
];

/// White-to-white waveform of a quick refresh: the pixel is left alone.
pub const LUT_WW_PARTIAL: [u8; 42] = [
    0x00, 0x19, 0x01, 0x00, 0x00, 0x01,
    0x00, 0x00, 0x00, 0x00, 0x00, 0x00,
    0x00, 0x00, 0x00, 0x00, 0x00, 0x00,
    0x00, 0x00, 0x00, 0x00, 0x00, 0x00,
    0x00, 0x00, 0x00, 0x00, 0x00, 0x00,
    0x00, 0x00, 0x00, 0x00, 0x00, 0x00,
    0x00, 0x00, 0x00, 0x00, 0x00, 0x00,
];

/// Black-to-white waveform of a quick refresh.
pub const LUT_BW_PARTIAL: [u8; 42] = [
    0x80, 0x19, 0x01, 0x00, 0x00, 0x01,
    0x00, 0x00, 0x00, 0x00, 0x00, 0x00,
    0x00, 0x00, 0x00, 0x00, 0x00, 0x00,
    0x00, 0x00, 0x00, 0x00, 0x00, 0x00,
    0x00, 0x00, 0x00, 0x00, 0x00, 0x00,
    0x00, 0x00, 0x00, 0x00, 0x00, 0x00,
    0x00, 0x00, 0x00, 0x00, 0x00, 0x00,
];

/// White-to-black waveform of a quick refresh.
pub const LUT_WB_PARTIAL: [u8; 42] = [
    0x40, 0x19, 0x01, 0x00, 0x00, 0x01,
    0x00, 0x00, 0x00, 0x00, 0x00, 0x00,
    0x00, 0x00, 0x00, 0x00, 0x00, 0x00,
    0x00, 0x00, 0x00, 0x00, 0x00, 0x00,
    0x00, 0x00, 0x00, 0x00, 0x00, 0x00,
    0x00, 0x00, 0x00, 0x00, 0x00, 0x00,
    0x00, 0x00, 0x00, 0x00, 0x00, 0x00,
];

/// Black-to-black waveform of a quick refresh: the pixel is left alone.
pub const LUT_BB_PARTIAL: [u8; 42] = [
    0x00, 0x19, 0x01, 0x00, 0x00, 0x01,
    0x00, 0x00, 0x00, 0x00, 0x00, 0x00,
    0x00, 0x00, 0x00, 0x00, 0x00, 0x00,
    0x00, 0x00, 0x00, 0x00, 0x00, 0x00,
    0x00, 0x00, 0x00, 0x00, 0x00, 0x00,
    0x00, 0x00, 0x00, 0x00, 0x00, 0x00,
    0x00, 0x00, 0x00, 0x00, 0x00, 0x00,
];

} // verus!
