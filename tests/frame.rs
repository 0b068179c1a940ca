use std::time::Duration;

use rgb_panel::config::{panel_config, panel_timing, CURSOR_PERIOD, FRAME_PIXELS, SPRITE_PIXELS};
use rgb_panel::event::EventLoopMessage;
use rgb_panel::frame::{advance_cursor, backlight_duty, fill_frame, sprite_bitmap};

#[test]
fn cursor_advances_and_wraps() {
    assert_eq!(CURSOR_PERIOD, 768);
    assert_eq!(advance_cursor(0), 1);
    assert_eq!(advance_cursor(766), 767);
    assert_eq!(advance_cursor(767), 0);
    let mut x = 0;
    for _ in 0..768 {
        x = advance_cursor(x);
        assert!(x + 32 <= 800);
    }
    assert_eq!(x, 0);
}

#[test]
fn fill_paints_every_pixel_blue() {
    let mut frame = vec![0u16; FRAME_PIXELS];
    frame[FRAME_PIXELS - 1] = 0xffff;
    fill_frame(&mut frame);
    assert_eq!(frame.len(), 800 * 480);
    assert!(frame.iter().all(|p| *p == 0x1f));
}

#[test]
fn sprite_is_red_square() {
    let s = sprite_bitmap();
    assert_eq!(s.len(), SPRITE_PIXELS);
    assert_eq!(s.len(), 1024);
    assert!(s.iter().all(|p| *p == 0xf800));
}

#[test]
fn duty_is_half_of_max() {
    assert_eq!(backlight_duty(8191), 4095);
    assert_eq!(backlight_duty(1024), 512);
    assert_eq!(backlight_duty(0), 0);
}

#[test]
fn board_configuration() {
    let t = panel_timing();
    assert_eq!((t.h_res, t.v_res, t.pclk_hz), (800, 480, 6000000));
    assert_eq!((t.hsync_pulse_width, t.hsync_back_porch, t.hsync_front_porch), (30, 16, 210));
    assert_eq!((t.vsync_pulse_width, t.vsync_back_porch, t.vsync_front_porch), (13, 10, 22));
    assert!(t.vsync_idle_low && t.hsync_idle_low && t.pclk_active_neg);
    assert!(!t.de_idle_high && !t.pclk_idle_high);
    let c = panel_config();
    assert_eq!(c.timing, t);
    assert_eq!(c.data_width, 16);
    assert_eq!(c.num_fbs, 1);
    assert_eq!(c.disp_gpio_num, -1);
    assert_eq!(c.data_gpio_nums, [15, 7, 6, 5, 4, 9, 46, 3, 8, 16, 1, 14, 21, 47, 48, 45]);
    assert!(c.fb_in_psram && !c.disp_active_low);
}

#[test]
fn event_message_holds_duration() {
    let m = EventLoopMessage::new(Duration::from_millis(250));
    assert_eq!(m.0, Duration::from_millis(250));
}
