use gbemu::bits::{combine, high_byte, low_byte, lower_bit, raise_bit, test_bit};
use gbemu::interrupt::{IntKind, InterruptController, Keys};

#[test]
fn new_controller() {
    let itc = InterruptController::new();
    assert!(!itc.master_enable);
    assert_eq!(itc.interrupt_enable, 0);
    assert_eq!(itc.interrupt_flag, 0xE0);
    assert_eq!(itc.divider_register, 0);
    assert_eq!(itc.timer_counter, 0);
    assert!(!itc.should_redraw);
    assert_eq!(itc.is_interrupt_waiting(), None);
}

#[test]
fn divider_goes_up_every_256_cycles() {
    let mut itc = InterruptController::new();
    itc.timer_step(255);
    assert_eq!(itc.divider_register, 0);
    itc.timer_step(1);
    assert_eq!(itc.divider_register, 1);
    itc.timer_step(256 * 3 + 10);
    assert_eq!(itc.divider_register, 4);
    itc.timer_step(246);
    assert_eq!(itc.divider_register, 5);
}

#[test]
fn divider_wraps() {
    let mut itc = InterruptController::new();
    itc.timer_step(256 * 256 + 256);
    assert_eq!(itc.divider_register, 1);
    let mut itc = InterruptController::new();
    itc.timer_step(u32::MAX);
    assert_eq!(itc.divider_register, 0xFF);
    assert_eq!(itc.divider_counter, 0xFF);
}

#[test]
fn timer_periods() {
    for (control, period) in [(0x04u8, 1024u32), (0x05, 16), (0x06, 64), (0x07, 256)] {
        let mut itc = InterruptController::new();
        itc.timer_control = control;
        itc.timer_step(period - 1);
        assert_eq!(itc.timer_counter, 0);
        itc.timer_step(1);
        assert_eq!(itc.timer_counter, 1);
        itc.timer_step(period * 3);
        assert_eq!(itc.timer_counter, 4);
    }
}

#[test]
fn timer_overflow_reloads_and_raises() {
    let mut itc = InterruptController::new();
    itc.timer_control = 0x05;
    itc.timer_modulo = 0xF0;
    itc.timer_counter = 0xFE;
    itc.timer_step(16);
    assert_eq!(itc.timer_counter, 0xFF);
    assert_eq!(itc.interrupt_flag & 0x04, 0);
    itc.timer_step(16);
    assert_eq!(itc.timer_counter, 0xF0);
    assert_eq!(itc.interrupt_flag & 0x04, 0x04);
    assert!(itc.handle_new_interrupt());
    assert!(!itc.handle_new_interrupt());
}

#[test]
fn timer_overflows_several_times_in_one_step() {
    let mut itc = InterruptController::new();
    itc.timer_control = 0x05;
    itc.timer_modulo = 0xFE;
    itc.timer_counter = 0xFD;
    // 7 increments: FD FE FF (FE) FF (FE) FF (FE)
    itc.timer_step(16 * 7);
    assert_eq!(itc.timer_counter, 0xFE);
    assert_eq!(itc.interrupt_flag & 0x04, 0x04);
}

#[test]
fn stopped_timer_is_held_at_zero() {
    let mut itc = InterruptController::new();
    itc.timer_control = 0x01;
    itc.timer_counter = 0x55;
    itc.timer_step(4);
    assert_eq!(itc.timer_counter, 0);
    itc.timer_step(1000);
    assert_eq!(itc.timer_counter, 0);
    assert_eq!(itc.divider_register, 3);
}

#[test]
fn triggers_set_their_bits() {
    let mut itc = InterruptController::new();
    itc.interrupt_flag = 0;
    itc.trigger_lcd_stat_int();
    assert_eq!(itc.interrupt_flag, 0x02);
    assert!(!itc.should_redraw);
    itc.trigger_timer_int();
    assert_eq!(itc.interrupt_flag, 0x06);
    itc.trigger_vblank_int();
    assert_eq!(itc.interrupt_flag, 0x07);
    assert!(itc.should_redraw);
    itc.trigger(IntKind::Serial);
    itc.trigger(IntKind::Joypad);
    assert_eq!(itc.interrupt_flag, 0x1F);
    itc.trigger(IntKind::Joypad);
    assert_eq!(itc.interrupt_flag, 0x1F);
    assert!(itc.handle_new_interrupt());
    assert!(!itc.handle_new_interrupt());
}

#[test]
fn pending_follows_priority() {
    let mut itc = InterruptController::new();
    itc.interrupt_enable = 0x1F;
    itc.interrupt_flag = 0x1F;
    assert_eq!(itc.is_interrupt_waiting(), None);
    itc.master_enable = true;
    let order =
        [IntKind::VBlank, IntKind::LcdStat, IntKind::Timer, IntKind::Serial, IntKind::Joypad];
    for kind in order {
        assert_eq!(itc.is_interrupt_waiting(), Some(kind));
        itc.acknowledge_interrupt(kind);
        assert!(!itc.master_enable);
        itc.master_enable = true;
    }
    assert_eq!(itc.is_interrupt_waiting(), None);
    assert_eq!(itc.interrupt_flag, 0x00);
}

#[test]
fn pending_needs_both_enable_and_flag() {
    let mut itc = InterruptController::new();
    itc.master_enable = true;
    itc.interrupt_enable = 0x04;
    itc.interrupt_flag = 0x1B;
    assert_eq!(itc.is_interrupt_waiting(), None);
    itc.interrupt_flag = 0xE0;
    itc.interrupt_enable = 0xFF;
    assert_eq!(itc.is_interrupt_waiting(), None);
    itc.interrupt_flag = 0x0C;
    itc.interrupt_enable = 0x08;
    assert_eq!(itc.is_interrupt_waiting(), Some(IntKind::Serial));
}

#[test]
fn interrupt_kinds() {
    assert_eq!(IntKind::VBlank.bit(), 0);
    assert_eq!(IntKind::Joypad.bit(), 4);
    assert_eq!(IntKind::VBlank.handler_address(), 0x40);
    assert_eq!(IntKind::LcdStat.handler_address(), 0x48);
    assert_eq!(IntKind::Timer.handler_address(), 0x50);
    assert_eq!(IntKind::Serial.handler_address(), 0x58);
    assert_eq!(IntKind::Joypad.handler_address(), 0x60);
}

#[test]
fn joypad_with_nothing_selected() {
    let mut itc = InterruptController::new();
    itc.change_key_state(Keys::A, true);
    itc.change_key_state(Keys::Up, true);
    itc.write_joypad_reg(0x30);
    assert_eq!(itc.read_joypad_reg(), 0xFF);
}

#[test]
fn joypad_directions() {
    let mut itc = InterruptController::new();
    itc.write_joypad_reg(0x20);
    assert_eq!(itc.read_joypad_reg(), 0xEF);
    let keys = [(Keys::Down, 0x08u8), (Keys::Up, 0x04), (Keys::Left, 0x02), (Keys::Right, 0x01)];
    for (key, bit) in keys {
        itc.change_key_state(key, true);
        assert_eq!(itc.read_joypad_reg(), 0xEF & !bit);
        itc.change_key_state(key, false);
        assert_eq!(itc.read_joypad_reg(), 0xEF);
    }
    itc.change_key_state(Keys::Start, true);
    assert_eq!(itc.read_joypad_reg(), 0xEF);
}

#[test]
fn joypad_buttons() {
    let mut itc = InterruptController::new();
    itc.write_joypad_reg(0x10);
    assert_eq!(itc.read_joypad_reg(), 0xDF);
    let keys = [(Keys::Start, 0x08u8), (Keys::Select, 0x04), (Keys::B, 0x02), (Keys::A, 0x01)];
    for (key, bit) in keys {
        itc.change_key_state(key, true);
        assert_eq!(itc.read_joypad_reg(), 0xDF & !bit);
        itc.change_key_state(key, false);
    }
    itc.change_key_state(Keys::Down, true);
    assert_eq!(itc.read_joypad_reg(), 0xDF);
}

#[test]
fn joypad_both_lines() {
    let mut itc = InterruptController::new();
    itc.write_joypad_reg(0x00);
    itc.change_key_state(Keys::Down, true);
    itc.change_key_state(Keys::A, true);
    assert_eq!(itc.read_joypad_reg(), 0xC6);
}

#[test]
fn single_bits() {
    assert!(test_bit(0x80, 7));
    assert!(!test_bit(0x7F, 7));
    assert!(test_bit(0x01, 0));
    assert_eq!(raise_bit(0x00, 3), 0x08);
    assert_eq!(raise_bit(0x08, 3), 0x08);
    assert_eq!(lower_bit(0xFF, 0), 0xFE);
    assert_eq!(lower_bit(0xFE, 0), 0xFE);
    assert_eq!(high_byte(0xABCD), 0xAB);
    assert_eq!(low_byte(0xABCD), 0xCD);
    assert_eq!(combine(0xAB, 0xCD), 0xABCD);
}
