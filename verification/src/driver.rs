//! The protocol driver: what each display operation sends to the controller.

use vstd::prelude::*;
use crate::color::Color;
use crate::command::Command;
use crate::constants::{
    BOOSTER_SOFT_START_DATA, DEEP_SLEEP_CHECK_CODE, LUT_BB, LUT_BB_PARTIAL, LUT_BW,
    LUT_BW_PARTIAL, LUT_VCOM_DC, LUT_VCOM_DC_PARTIAL, LUT_WB, LUT_WB_PARTIAL, LUT_WW,
    LUT_WW_PARTIAL, PANEL_SETTING_DATA, PARTIAL_WINDOW_SCAN_MODE, PLL_CONTROL_DATA,
    POWER_SETTING_DATA, VCM_DC_SETTING_DATA, VCOM_AND_DATA_INTERVAL_FULL,
    VCOM_AND_DATA_INTERVAL_QUICK,
};
use crate::transfer::{
    cmd, cmd_with_data, data_x_times, push_cmd, push_cmd_with_data, push_data_x_times,
    push_wait_until_idle, wait_until_idle, Transfer, TransferView,
};

verus! {

/// Width of the panel in pixels.
pub const WIDTH: u32 = 104;

/// Height of the panel in pixels.
pub const HEIGHT: u32 = 212;

/// Tone that a new driver floods the background with.
pub const DEFAULT_BACKGROUND_COLOR: Color = Color::White;

/// Whether the controller holds its busy line low while it works. This one does:
/// the line idles high.
pub const IS_BUSY_LOW: bool = true;

/// Whether a busy line that reads `line_high` says that the controller is busy.
pub open spec fn line_says_busy(line_high: bool) -> bool {
    line_high != IS_BUSY_LOW
}

/// Bytes in one packed frame: a bit per pixel, eight pixels to a byte, row by row.
pub const FRAME_BYTES: u32 = WIDTH / 8 * HEIGHT;

/// Which set of waveforms drives a refresh.
#[allow(non_camel_case_types)]
#[derive(Clone, Copy, Debug, PartialEq, Eq, Structural)]
pub enum RefreshLUT {
    /// The slow waveforms that repaint every pixel.
    FULL,
    /// The short waveforms for updates of a window.
    QUICK,
}

/// Parameter of `VCOM_AND_DATA_INTERVAL_SETTING` under each refresh mode.
pub open spec fn vcom_and_data_interval(refresh: RefreshLUT) -> u8 {
    match refresh {
        RefreshLUT::FULL => VCOM_AND_DATA_INTERVAL_FULL,
        RefreshLUT::QUICK => VCOM_AND_DATA_INTERVAL_QUICK,
    }
}

/// The five waveform tables of a refresh mode, in the order of their registers:
/// common voltage, white to white, black to white, white to black, black to black.
pub open spec fn waveforms(refresh: RefreshLUT) -> Seq<Seq<u8>> {
    match refresh {
        RefreshLUT::FULL => seq![LUT_VCOM_DC@, LUT_WW@, LUT_BW@, LUT_WB@, LUT_BB@],
        RefreshLUT::QUICK => seq![
            LUT_VCOM_DC_PARTIAL@,
            LUT_WW_PARTIAL@,
            LUT_BW_PARTIAL@,
            LUT_WB_PARTIAL@,
            LUT_BB_PARTIAL@,
        ],
    }
}

/// What loads the waveforms of `refresh` into the controller.
pub open spec fn lut_sequence(refresh: RefreshLUT) -> Seq<TransferView> {
    cmd_with_data(Command::VCM_DC_SETTING, VCM_DC_SETTING_DATA@)
        + cmd_with_data(
        Command::VCOM_AND_DATA_INTERVAL_SETTING,
        seq![vcom_and_data_interval(refresh)],
    ) + cmd_with_data(Command::VCOM_LUT, waveforms(refresh)[0])
        + cmd_with_data(Command::W2W_LUT, waveforms(refresh)[1])
        + cmd_with_data(Command::B2W_LUT, waveforms(refresh)[2])
        + cmd_with_data(Command::W2B_LUT, waveforms(refresh)[3])
        + cmd_with_data(Command::B2B_LUT, waveforms(refresh)[4])
}

/// The power-on sequence: reset, power rails, booster, power on, then panel,
/// clock and resolution settings once the controller is idle.
pub open spec fn init_sequence() -> Seq<TransferView> {
    seq![TransferView::Reset]
        + cmd_with_data(Command::POWER_SETTING, POWER_SETTING_DATA@)
        + cmd_with_data(Command::BOOSTER_SOFT_START, BOOSTER_SOFT_START_DATA@)
        + cmd(Command::POWER_ON)
        + wait_until_idle()
        + cmd_with_data(Command::PANEL_SETTING, PANEL_SETTING_DATA@)
        + cmd_with_data(Command::PLL_CONTROL, PLL_CONTROL_DATA@)
        + cmd_with_data(Command::RESOLUTION_SETTING, resolution())
}

/// Parameter of `RESOLUTION_SETTING`: the width, then the height as high and
/// low byte.
pub open spec fn resolution() -> Seq<u8> {
    seq![WIDTH as u8, (HEIGHT / 256) as u8, (HEIGHT % 256) as u8]
}

/// What puts the controller into deep sleep: power off, and once it is idle the
/// sleep command with its check code.
pub open spec fn sleep_sequence() -> Seq<TransferView> {
    cmd(Command::POWER_OFF) + wait_until_idle() + cmd_with_data(
        Command::DEEP_SLEEP,
        seq![DEEP_SLEEP_CHECK_CODE],
    )
}

/// What brings the controller back from deep sleep: the whole power-on
/// sequence, then a wait until it is idle.
pub open spec fn wake_up_sequence() -> Seq<TransferView> {
    init_sequence() + wait_until_idle()
}

/// The lowest eight bits of `n`.
pub open spec fn low_byte(n: int) -> u8 {
    (n % 256) as u8
}

/// Parameters of `PARTIAL_WINDOW` for the window that starts at (`x`, `y`) and
/// is `width` by `height` pixels.
///
/// Each end of the window is its start plus its extent. A horizontal position
/// takes one byte, a vertical position two, high byte first, and of a position
/// too large for its field the lowest bits are sent.
pub open spec fn partial_window(x: u32, y: u32, width: u32, height: u32) -> Seq<u8> {
    seq![
        low_byte(x as int),
        low_byte(x + width),
        low_byte((y / 256) as int),
        low_byte(y as int),
        low_byte((y + height) / 256),
        low_byte(y + height),
        PARTIAL_WINDOW_SCAN_MODE,
    ]
}

/// What writes a whole frame: the full-refresh waveforms, the old-image plane
/// flooded with the background tone, the new-image plane from `frame`, and a
/// wait until the controller has taken it.
pub open spec fn update_frame_sequence(background: Color, frame: Seq<u8>) -> Seq<TransferView> {
    lut_sequence(RefreshLUT::FULL) + cmd(Command::DISPLAY_START_TRANSMISSION_1) + data_x_times(
        background.fill_byte(),
        FRAME_BYTES,
    ) + cmd_with_data(Command::DISPLAY_START_TRANSMISSION_2, frame) + wait_until_idle()
}

/// What writes a window of a frame: the quick-refresh waveforms, entry into
/// partial mode, the window, and the window's pixels.
pub open spec fn update_partial_frame_sequence(
    pixels: Seq<u8>,
    x: u32,
    y: u32,
    width: u32,
    height: u32,
) -> Seq<TransferView> {
    lut_sequence(RefreshLUT::QUICK) + cmd(Command::PARTIAL_IN) + cmd_with_data(
        Command::PARTIAL_WINDOW,
        partial_window(x, y, width, height),
    ) + cmd_with_data(Command::DISPLAY_START_TRANSMISSION_2, pixels)
}

/// What triggers a refresh under `refresh`. After a quick refresh the
/// controller is taken out of partial mode as well.
pub open spec fn display_frame_sequence(refresh: RefreshLUT) -> Seq<TransferView> {
    cmd(Command::DISPLAY_REFRESH) + match refresh {
        RefreshLUT::FULL => Seq::<TransferView>::empty(),
        RefreshLUT::QUICK => cmd(Command::PARTIAL_OUT),
    } + wait_until_idle()
}

/// What floods the new-image plane with the background tone.
pub open spec fn clear_frame_sequence(background: Color) -> Seq<TransferView> {
    lut_sequence(RefreshLUT::FULL) + cmd(Command::DISPLAY_START_TRANSMISSION_2) + data_x_times(
        background.fill_byte(),
        FRAME_BYTES,
    )
}

/// A frame buffer that does not hold exactly one packed frame.
#[derive(Clone, Copy, Debug, PartialEq, Eq)]
pub struct InvalidBufferLength {
    /// Bytes in a packed frame.
    pub expected: usize,
    /// Bytes in the buffer that was handed in.
    pub actual: usize,
}

/// Driver state of one GDEW0213I5F panel.
pub struct GDEW0213I5F {
    /// Tone of the background plane.
    background_color: Color,
    /// Waveforms that the controller was last told to use.
    refresh: RefreshLUT,
}

/// What a driver knows of its panel.
pub struct DriverView {
    /// Tone of the background plane.
    pub background_color: Color,
    /// Waveforms that the controller was last told to use.
    pub refresh: RefreshLUT,
}

impl View for GDEW0213I5F {
    type V = DriverView;

    closed spec fn view(&self) -> DriverView {
        DriverView { background_color: self.background_color, refresh: self.refresh }
    }
}

impl GDEW0213I5F {
    /// Creates the driver of a panel that has just been powered, together with
    /// the sequence that initialises its controller. Nothing else may be sent
    /// before that sequence has run.
    pub fn new() -> (r: (GDEW0213I5F, Vec<Transfer>))
        ensures
            r.0@.background_color == DEFAULT_BACKGROUND_COLOR,
            r.0@.refresh == RefreshLUT::FULL,
            r.1.deep_view() == init_sequence(),
    {
        let epd = GDEW0213I5F {
            background_color: DEFAULT_BACKGROUND_COLOR,
            refresh: RefreshLUT::FULL,
        };
        let plan = epd.init();
        (epd, plan)
    }

    /// Width of the panel in pixels.
    pub fn width(&self) -> (r: u32)
        ensures
            r == WIDTH,
    {
        WIDTH
    }

    /// Height of the panel in pixels.
    pub fn height(&self) -> (r: u32)
        ensures
            r == HEIGHT,
    {
        HEIGHT
    }

    /// Tells from a sample of the busy line whether the controller is busy:
    /// `line_high` is the level that was read, `true` for high.
    pub fn is_busy(line_high: bool) -> (r: bool)
        ensures
            r == line_says_busy(line_high),
    {
        line_high != IS_BUSY_LOW
    }

    /// Sets the tone that the next frame update or clear floods the background
    /// with. Nothing is sent.
    pub fn set_background_color(&mut self, background_color: Color)
        ensures
            final(self)@.background_color == background_color,
            final(self)@.refresh == old(self)@.refresh,
    {
        self.background_color = background_color;
    }

    /// The tone that floods the background.
    pub fn background_color(&self) -> (r: &Color)
        ensures
            *r == self@.background_color,
    {
        &self.background_color
    }

    /// Lists what puts the controller into deep sleep. Only a wake-up brings it
    /// back.
    pub fn sleep(&self) -> (plan: Vec<Transfer>)
        ensures
            plan.deep_view() == sleep_sequence(),
    {
        let mut plan: Vec<Transfer> = Vec::new();
        assert(plan.deep_view() + cmd(Command::POWER_OFF) =~= cmd(Command::POWER_OFF));
        push_cmd(&mut plan, Command::POWER_OFF);
        push_wait_until_idle(&mut plan);
        let check_code = [DEEP_SLEEP_CHECK_CODE];
        assert(check_code@ =~= seq![DEEP_SLEEP_CHECK_CODE]);
        push_cmd_with_data(&mut plan, Command::DEEP_SLEEP, &check_code);
        plan
    }

    /// Lists what brings the controller back from deep sleep. Deep sleep wipes
    /// the controller's settings, so this is the power-on sequence again.
    pub fn wake_up(&self) -> (plan: Vec<Transfer>)
        ensures
            plan.deep_view() == wake_up_sequence(),
    {
        let mut plan = self.init();
        push_wait_until_idle(&mut plan);
        plan
    }

    /// Lists what writes the packed frame in `buffer` to the controller, under
    /// the full-refresh waveforms. The panel shows it after the next refresh.
    ///
    /// A buffer of any other length than one frame is refused: nothing is listed
    /// and the driver stays as it was.
    pub fn update_frame(&mut self, buffer: &[u8]) -> (r: Result<Vec<Transfer>, InvalidBufferLength>)
        ensures
            final(self)@.background_color == old(self)@.background_color,
            match r {
                Ok(plan) => {
                    &&& buffer@.len() == FRAME_BYTES
                    &&& final(self)@.refresh == RefreshLUT::FULL
                    &&& plan.deep_view() == update_frame_sequence(
                        old(self)@.background_color,
                        buffer@,
                    )
                },
                Err(e) => {
                    &&& buffer@.len() != FRAME_BYTES
                    &&& final(self)@.refresh == old(self)@.refresh
                    &&& e == (InvalidBufferLength {
                        expected: FRAME_BYTES as usize,
                        actual: buffer@.len() as usize,
                    })
                },
            },
    {
        if buffer.len() != FRAME_BYTES as usize {
            return Err(InvalidBufferLength { expected: FRAME_BYTES as usize, actual: buffer.len() });
        }
        let mut plan = self.set_lut(Some(RefreshLUT::FULL));
        push_cmd(&mut plan, Command::DISPLAY_START_TRANSMISSION_1);
        push_data_x_times(&mut plan, u8::from(self.background_color), FRAME_BYTES);
        push_cmd_with_data(&mut plan, Command::DISPLAY_START_TRANSMISSION_2, buffer);
        push_wait_until_idle(&mut plan);
        Ok(plan)
    }

    /// Lists what writes `buffer` into the window that starts at (`x`, `y`) and
    /// is `width` by `height` pixels, under the quick-refresh waveforms.
    ///
    /// The controller stays in partial mode and is not waited for: the refresh
    /// that follows does both.
    pub fn update_partial_frame(
        &mut self,
        buffer: &[u8],
        x: u32,
        y: u32,
        width: u32,
        height: u32,
    ) -> (plan: Vec<Transfer>)
        ensures
            final(self)@.refresh == RefreshLUT::QUICK,
            final(self)@.background_color == old(self)@.background_color,
            plan.deep_view() == update_partial_frame_sequence(buffer@, x, y, width, height),
    {
        let mut plan = self.set_lut(Some(RefreshLUT::QUICK));
        push_cmd(&mut plan, Command::PARTIAL_IN);
        // The panel is 212 rows high, so a row needs two bytes where a column
        // needs one. The sums are taken in 64 bits, where they cannot overflow.
        let x_end: u64 = x as u64 + width as u64;
        let y_end: u64 = y as u64 + height as u64;
        let window = [
            (x % 256) as u8,
            (x_end % 256) as u8,
            (y / 256 % 256) as u8,
            (y % 256) as u8,
            (y_end / 256 % 256) as u8,
            (y_end % 256) as u8,
            PARTIAL_WINDOW_SCAN_MODE,
        ];
        assert(window@ =~= partial_window(x, y, width, height));
        push_cmd_with_data(&mut plan, Command::PARTIAL_WINDOW, &window);
        push_cmd_with_data(&mut plan, Command::DISPLAY_START_TRANSMISSION_2, buffer);
        plan
    }

    /// Lists what makes the panel show the frame that the controller holds.
    pub fn display_frame(&self) -> (plan: Vec<Transfer>)
        ensures
            plan.deep_view() == display_frame_sequence(self@.refresh),
    {
        let mut plan: Vec<Transfer> = Vec::new();
        assert(plan.deep_view() + cmd(Command::DISPLAY_REFRESH) =~= cmd(Command::DISPLAY_REFRESH));
        push_cmd(&mut plan, Command::DISPLAY_REFRESH);
        match self.refresh {
            RefreshLUT::QUICK => {
                push_cmd(&mut plan, Command::PARTIAL_OUT);
            },
            RefreshLUT::FULL => {
                assert(plan.deep_view() + Seq::<TransferView>::empty() =~= plan.deep_view());
            },
        }
        push_wait_until_idle(&mut plan);
        plan
    }

    /// Lists what floods the controller's frame with the background tone, under
    /// the full-refresh waveforms. The panel shows it after the next refresh.
    pub fn clear_frame(&mut self) -> (plan: Vec<Transfer>)
        ensures
            final(self)@.refresh == RefreshLUT::FULL,
            final(self)@.background_color == old(self)@.background_color,
            plan.deep_view() == clear_frame_sequence(old(self)@.background_color),
    {
        let mut plan = self.set_lut(Some(RefreshLUT::FULL));
        let color = u8::from(self.background_color);
        push_cmd(&mut plan, Command::DISPLAY_START_TRANSMISSION_2);
        push_data_x_times(&mut plan, color, FRAME_BYTES);
        plan
    }

    /// Lists the power-on sequence.
    pub fn init(&self) -> (plan: Vec<Transfer>)
        ensures
            plan.deep_view() == init_sequence(),
    {
        let mut plan: Vec<Transfer> = Vec::new();
        plan.push(Transfer::Reset);
        assert(plan.deep_view() =~= seq![TransferView::Reset]);
        push_cmd_with_data(&mut plan, Command::POWER_SETTING, &POWER_SETTING_DATA);
        push_cmd_with_data(&mut plan, Command::BOOSTER_SOFT_START, &BOOSTER_SOFT_START_DATA);
        push_cmd(&mut plan, Command::POWER_ON);
        push_wait_until_idle(&mut plan);
        push_cmd_with_data(&mut plan, Command::PANEL_SETTING, &PANEL_SETTING_DATA);
        push_cmd_with_data(&mut plan, Command::PLL_CONTROL, &PLL_CONTROL_DATA);
        let resolution_data = [WIDTH as u8, (HEIGHT / 256) as u8, (HEIGHT % 256) as u8];
        assert(resolution_data@ =~= resolution());
        push_cmd_with_data(&mut plan, Command::RESOLUTION_SETTING, &resolution_data);
        plan
    }

    /// Selects the refresh mode and lists what loads its waveforms.
    ///
    /// With `None` the mode stays as it is. The tables are listed in either case:
    /// the controller loses them across other operations, so they go out afresh
    /// before every frame.
    pub fn set_lut(&mut self, refresh_rate: Option<RefreshLUT>) -> (plan: Vec<Transfer>)
        ensures
            final(self)@.refresh == match refresh_rate {
                Some(refresh) => refresh,
                None => old(self)@.refresh,
            },
            final(self)@.background_color == old(self)@.background_color,
            plan.deep_view() == lut_sequence(final(self)@.refresh),
    {
        if let Some(refresh_lut) = refresh_rate {
            self.refresh = refresh_lut;
        }
        let mut plan: Vec<Transfer> = Vec::new();
        assert(plan.deep_view() + cmd_with_data(Command::VCM_DC_SETTING, VCM_DC_SETTING_DATA@)
            =~= cmd_with_data(Command::VCM_DC_SETTING, VCM_DC_SETTING_DATA@));
        match self.refresh {
            RefreshLUT::FULL => {
                push_cmd_with_data(&mut plan, Command::VCM_DC_SETTING, &VCM_DC_SETTING_DATA);
                let interval = [VCOM_AND_DATA_INTERVAL_FULL];
                assert(interval@ =~= seq![vcom_and_data_interval(RefreshLUT::FULL)]);
                push_cmd_with_data(&mut plan, Command::VCOM_AND_DATA_INTERVAL_SETTING, &interval);
                push_cmd_with_data(&mut plan, Command::VCOM_LUT, &LUT_VCOM_DC);
                push_cmd_with_data(&mut plan, Command::W2W_LUT, &LUT_WW);
                push_cmd_with_data(&mut plan, Command::B2W_LUT, &LUT_BW);
                push_cmd_with_data(&mut plan, Command::W2B_LUT, &LUT_WB);
                push_cmd_with_data(&mut plan, Command::B2B_LUT, &LUT_BB);
            },
            RefreshLUT::QUICK => {
                push_cmd_with_data(&mut plan, Command::VCM_DC_SETTING, &VCM_DC_SETTING_DATA);
                let interval = [VCOM_AND_DATA_INTERVAL_QUICK];
                assert(interval@ =~= seq![vcom_and_data_interval(RefreshLUT::QUICK)]);
                push_cmd_with_data(&mut plan, Command::VCOM_AND_DATA_INTERVAL_SETTING, &interval);
                push_cmd_with_data(&mut plan, Command::VCOM_LUT, &LUT_VCOM_DC_PARTIAL);
                push_cmd_with_data(&mut plan, Command::W2W_LUT, &LUT_WW_PARTIAL);
                push_cmd_with_data(&mut plan, Command::B2W_LUT, &LUT_BW_PARTIAL);
                push_cmd_with_data(&mut plan, Command::W2B_LUT, &LUT_WB_PARTIAL);
                push_cmd_with_data(&mut plan, Command::B2B_LUT, &LUT_BB_PARTIAL);
            },
        }
        plan
    }
}

/// The refresh mode decides the parameter of `VCOM_AND_DATA_INTERVAL_SETTING`:
/// the command goes out exactly once, as the second of the sequence, with `0x97`
/// for a full refresh and `0x47` for a quick one.
pub proof fn lemma_interval_byte_follows_mode(refresh: RefreshLUT)
    ensures
        lut_sequence(refresh).len() == 14,
        lut_sequence(refresh)[2] == TransferView::Command(
            Command::VCOM_AND_DATA_INTERVAL_SETTING,
        ),
        refresh == RefreshLUT::FULL ==> lut_sequence(refresh)[3] == TransferView::Data(
            seq![0x97u8],
        ),
        refresh == RefreshLUT::QUICK ==> lut_sequence(refresh)[3] == TransferView::Data(
            seq![0x47u8],
        ),
        forall|i: int|
            0 <= i < 14 && i != 2 ==> #[trigger] lut_sequence(refresh)[i]
                != TransferView::Command(Command::VCOM_AND_DATA_INTERVAL_SETTING),
{
    assert(seq![vcom_and_data_interval(RefreshLUT::FULL)] =~= seq![0x97u8]);
    assert(seq![vcom_and_data_interval(RefreshLUT::QUICK)] =~= seq![0x47u8]);
}

/// A refresh takes the controller out of partial mode exactly when the quick
/// waveforms are in force.
pub proof fn lemma_partial_out_only_after_quick(refresh: RefreshLUT)
    ensures
        display_frame_sequence(refresh).contains(TransferView::Command(Command::PARTIAL_OUT))
            <==> refresh == RefreshLUT::QUICK,
{
    let sequence = display_frame_sequence(refresh);
    if refresh == RefreshLUT::QUICK {
        assert(sequence[1] == TransferView::Command(Command::PARTIAL_OUT));
    } else {
        assert(sequence.len() == 2);
    }
}

/// The controller is never sent a bare `DEEP_SLEEP`: the sleep sequence holds
/// the command, and right behind it the check code `0xa5` as its one parameter.
pub proof fn lemma_deep_sleep_carries_check_code()
    ensures
        sleep_sequence().contains(TransferView::Command(Command::DEEP_SLEEP)),
        forall|i: int|
            0 <= i < sleep_sequence().len() && #[trigger] sleep_sequence()[i]
                == TransferView::Command(Command::DEEP_SLEEP) ==> i + 1 < sleep_sequence().len()
                && sleep_sequence()[i + 1] == TransferView::Data(seq![0xa5u8]),
{
    let sequence = sleep_sequence();
    assert(sequence.len() == 4);
    assert(sequence[2] == TransferView::Command(Command::DEEP_SLEEP));
    assert(seq![DEEP_SLEEP_CHECK_CODE] =~= seq![0xa5u8]);
}

/// A window whose ends fit their fields arrives as it was given: the first two
/// bytes are its horizontal ends, the next two pairs its vertical ends, and the
/// last byte is the scan mode.
pub proof fn lemma_partial_window_holds_positions_that_fit(
    x: u32,
    y: u32,
    width: u32,
    height: u32,
)
    requires
        x + width <= 0xff,
        y + height <= 0xffff,
    ensures
        partial_window(x, y, width, height).len() == 7,
        partial_window(x, y, width, height)[0] == x,
        partial_window(x, y, width, height)[1] == x + width,
        partial_window(x, y, width, height)[2] * 256 + partial_window(x, y, width, height)[3] == y,
        partial_window(x, y, width, height)[4] * 256 + partial_window(x, y, width, height)[5] == y
            + height,
        partial_window(x, y, width, height)[6] == 0x01,
{
}

/// Every frame write loads the waveforms of its mode first: the full ones before
/// a whole frame or a clear, the quick ones before a window.
pub proof fn lemma_frame_writes_load_waveforms_first(
    background: Color,
    pixels: Seq<u8>,
    x: u32,
    y: u32,
    width: u32,
    height: u32,
)
    ensures
        update_frame_sequence(background, pixels).subrange(0, 14) == lut_sequence(
            RefreshLUT::FULL,
        ),
        clear_frame_sequence(background).subrange(0, 14) == lut_sequence(RefreshLUT::FULL),
        update_partial_frame_sequence(pixels, x, y, width, height).subrange(0, 14) == lut_sequence(
            RefreshLUT::QUICK,
        ),
{
    lemma_interval_byte_follows_mode(RefreshLUT::FULL);
    lemma_interval_byte_follows_mode(RefreshLUT::QUICK);
    assert(update_frame_sequence(background, pixels).subrange(0, 14) =~= lut_sequence(
        RefreshLUT::FULL,
    ));
    assert(clear_frame_sequence(background).subrange(0, 14) =~= lut_sequence(RefreshLUT::FULL));
    assert(update_partial_frame_sequence(pixels, x, y, width, height).subrange(0, 14)
        =~= lut_sequence(RefreshLUT::QUICK));
}

/// Writing a window neither waits for the controller nor leaves partial mode,
/// and clearing the frame triggers no refresh: each is left to the refresh that
/// the caller asks for next.
pub proof fn lemma_frame_writes_leave_the_refresh_to_the_caller(
    background: Color,
    pixels: Seq<u8>,
    x: u32,
    y: u32,
    width: u32,
    height: u32,
)
    ensures
        !update_partial_frame_sequence(pixels, x, y, width, height).contains(
            TransferView::WaitUntilIdle,
        ),
        !update_partial_frame_sequence(pixels, x, y, width, height).contains(
            TransferView::Command(Command::PARTIAL_OUT),
        ),
        !clear_frame_sequence(background).contains(TransferView::Command(Command::DISPLAY_REFRESH)),
{
    let window = update_partial_frame_sequence(pixels, x, y, width, height);
    let clear = clear_frame_sequence(background);
    assert(window.len() == 19);
    assert(clear.len() == 16);
    assert forall|i: int| 0 <= i < 19 implies #[trigger] window[i] != TransferView::WaitUntilIdle
        && window[i] != TransferView::Command(Command::PARTIAL_OUT) by {
        if i < 14 {
            assert(window[i] == lut_sequence(RefreshLUT::QUICK)[i]);
        }
    }
    assert forall|i: int| 0 <= i < 16 implies #[trigger] clear[i] != TransferView::Command(
        Command::DISPLAY_REFRESH,
    ) by {
        if i < 14 {
            assert(clear[i] == lut_sequence(RefreshLUT::FULL)[i]);
        }
    }
}

} // verus!
