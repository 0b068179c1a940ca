use vstd::prelude::*;

verus! {

/// Horizontal resolution of the panel, in pixels.
pub const H_RES: u32 = 800;

/// Vertical resolution of the panel, in pixels.
pub const V_RES: u32 = 480;

/// Number of pixels in one framebuffer.
pub const FRAME_PIXELS: usize = 800 * 480;

/// Side of the square sprite, in pixels.
pub const SPRITE_SIZE: u32 = 32;

/// Number of pixels in the sprite bitmap.
pub const SPRITE_PIXELS: usize = 32 * 32;

/// Number of distinct sprite positions: the cursor wraps at this value.
pub const CURSOR_PERIOD: u32 = H_RES - SPRITE_SIZE;

/// RGB565 blue, painted over the whole framebuffer every frame.
pub const FILL_COLOR: u16 = 0x1f;

/// RGB565 red, the colour of the sprite.
pub const SPRITE_COLOR: u16 = 0xf800;

/// Pause between two frames, in milliseconds.
pub const FRAME_DELAY_MS: u32 = 100;

/// Frequency of the backlight PWM timer, in hertz.
pub const BACKLIGHT_FREQUENCY_HZ: u32 = 25000;

/// GPIO that drives the backlight PWM channel.
pub const BACKLIGHT_GPIO: i32 = 2;

/// Signal timing of the panel.
#[derive(Debug, Clone, Copy, PartialEq, Eq, Structural)]
pub struct PanelTiming {
    pub pclk_hz: u32,
    pub h_res: u32,
    pub v_res: u32,
    pub hsync_pulse_width: u32,
    pub hsync_back_porch: u32,
    pub hsync_front_porch: u32,
    pub vsync_pulse_width: u32,
    pub vsync_back_porch: u32,
    pub vsync_front_porch: u32,
    pub vsync_idle_low: bool,
    pub hsync_idle_low: bool,
    pub de_idle_high: bool,
    pub pclk_active_neg: bool,
    pub pclk_idle_high: bool,
}

/// Everything the panel is created from: timing, bus, pins and framebuffers.
#[derive(Debug, Clone, Copy)]
pub struct PanelConfig {
    pub timing: PanelTiming,
    pub data_width: usize,
    pub bits_per_pixel: usize,
    pub num_fbs: usize,
    pub bounce_buffer_size_px: usize,
    pub sram_trans_align: usize,
    pub psram_trans_align: usize,
    pub hsync_gpio_num: i32,
    pub vsync_gpio_num: i32,
    pub de_gpio_num: i32,
    pub pclk_gpio_num: i32,
    /// `-1`: no display-enable pin.
    pub disp_gpio_num: i32,
    pub data_gpio_nums: [i32; 16],
    pub disp_active_low: bool,
    pub fb_in_psram: bool,
}

/// The timing of the 800x480 panel of this board.
pub open spec fn board_timing() -> PanelTiming {
    PanelTiming {
        pclk_hz: 6000000,
        h_res: H_RES,
        v_res: V_RES,
        hsync_pulse_width: 30,
        hsync_back_porch: 16,
        hsync_front_porch: 210,
        vsync_pulse_width: 13,
        vsync_back_porch: 10,
        vsync_front_porch: 22,
        vsync_idle_low: true,
        hsync_idle_low: true,
        de_idle_high: false,
        pclk_active_neg: true,
        pclk_idle_high: false,
    }
}

/// The panel timing of this board.
pub fn panel_timing() -> (r: PanelTiming)
    ensures
        r == board_timing(),
{
    PanelTiming {
        pclk_hz: 6000000,
        h_res: H_RES,
        v_res: V_RES,
        hsync_pulse_width: 30,
        hsync_back_porch: 16,
        hsync_front_porch: 210,
        vsync_pulse_width: 13,
        vsync_back_porch: 10,
        vsync_front_porch: 22,
        vsync_idle_low: true,
        hsync_idle_low: true,
        de_idle_high: false,
        pclk_active_neg: true,
        pclk_idle_high: false,
    }
}

/// The panel configuration of this board: a 16-bit bus, one framebuffer in
/// PSRAM, and the board's pin assignment.
pub fn panel_config() -> (r: PanelConfig)
    ensures
        r.timing == board_timing(),
        r.data_width == 16,
        r.bits_per_pixel == 0,
        r.num_fbs == 1,
        r.bounce_buffer_size_px == 0,
        r.sram_trans_align == 8,
        r.psram_trans_align == 64,
        r.hsync_gpio_num == 39,
        r.vsync_gpio_num == 40,
        r.de_gpio_num == 41,
        r.pclk_gpio_num == 42,
        r.disp_gpio_num == -1,
        r.data_gpio_nums@ == seq![15i32, 7, 6, 5, 4, 9, 46, 3, 8, 16, 1, 14, 21, 47, 48, 45],
        !r.disp_active_low,
        r.fb_in_psram,
{
    let data_gpio_nums: [i32; 16] = [15, 7, 6, 5, 4, 9, 46, 3, 8, 16, 1, 14, 21, 47, 48, 45];
    let r = PanelConfig {
        timing: panel_timing(),
        data_width: 16,
        bits_per_pixel: 0,
        num_fbs: 1,
        bounce_buffer_size_px: 0,
        sram_trans_align: 8,
        psram_trans_align: 64,
        hsync_gpio_num: 39,
        vsync_gpio_num: 40,
        de_gpio_num: 41,
        pclk_gpio_num: 42,
        disp_gpio_num: -1,
        data_gpio_nums,
        disp_active_low: false,
        fb_in_psram: true,
    };
    assert(r.data_gpio_nums@ =~= seq![15i32, 7, 6, 5, 4, 9, 46, 3, 8, 16, 1, 14, 21, 47, 48, 45]);
    r
}

} // verus!
