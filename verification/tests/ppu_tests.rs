use gbemu::display::Display;
use gbemu::driver::Emulator;
use gbemu::fault::Fault;
use gbemu::interrupt::InterruptController;
use gbemu::memory::build_mbc;
use gbemu::memory::mmu::MMU;
use gbemu::ppu::fetcher::{AddressingMode, Fetcher, FetcherKind};
use gbemu::ppu::oam::{OAMFlags, OAMSize, Oam};
use gbemu::ppu::pixel::{byte_pair_to_pixels, read_tile_pixels, Pixel, PixelSource};
use gbemu::ppu::pixel_fifo::{choose_pixel, PixelFIFO};
use gbemu::ppu::{ControlReg, Mode, PPUState, PIXEL_COUNT, PPU, SCREEN_HEIGHT, SCREEN_WIDTH};
use gbemu::serial::SerialBuffer;

fn mmu() -> MMU {
    let rom = vec![0u8; 0x8000];
    let mbc = build_mbc(&rom).unwrap();
    let mut mmu = MMU::new(mbc, InterruptController::new(), SerialBuffer::new());
    mmu.unmount_bootstrap_rom();
    mmu
}

fn colors(pixels: &[Pixel]) -> Vec<u8> {
    pixels.iter().map(|pixel| pixel.color).collect()
}

fn bg(color: u8) -> Pixel {
    Pixel { color, source: PixelSource::BackgroundWindow }
}

fn obj(color: u8, bg_priority: bool) -> Pixel {
    Pixel { color, source: PixelSource::OAM { palette: 0, bg_priority } }
}

/// Stores one tile whose every row is `low`, `high`.
fn write_tile(mmu: &mut MMU, tile: u16, low: u8, high: u8) {
    for row in 0..8u16 {
        mmu.write_memory(0x8000 + tile * 16 + row * 2, low).unwrap();
        mmu.write_memory(0x8000 + tile * 16 + row * 2 + 1, high).unwrap();
    }
}

fn run_line(ppu: &mut PPU, mmu: &mut MMU, display: &mut Display) {
    for _ in 0..456 {
        ppu.cycle(mmu, display).unwrap();
    }
}

#[test]
fn screen_dimensions() {
    assert_eq!(SCREEN_WIDTH, 160);
    assert_eq!(SCREEN_HEIGHT, 144);
    assert_eq!(PIXEL_COUNT, 160 * 144);
}

#[test]
fn tile_row_bits_become_pixels() {
    let pixels = byte_pair_to_pixels(0b1010_0101, 0b1100_0011, PixelSource::BackgroundWindow);
    assert_eq!(colors(&pixels), vec![3, 2, 1, 0, 0, 1, 2, 3]);
    assert!(pixels.iter().all(|pixel| pixel.source == PixelSource::BackgroundWindow));
    let pixels = byte_pair_to_pixels(0x80, 0x00, PixelSource::BackgroundWindow);
    assert_eq!(colors(&pixels), vec![1, 0, 0, 0, 0, 0, 0, 0]);
    let pixels = byte_pair_to_pixels(0x00, 0x01, PixelSource::BackgroundWindow);
    assert_eq!(colors(&pixels), vec![0, 0, 0, 0, 0, 0, 0, 2]);
}

#[test]
fn tile_rows_are_read_from_memory() {
    let mut mmu = mmu();
    mmu.write_memory(0x8000 + 5 * 16 + 3 * 2, 0xFF).unwrap();
    mmu.write_memory(0x8000 + 5 * 16 + 3 * 2 + 1, 0x0F).unwrap();
    let pixels = read_tile_pixels(&mmu, 5, 3, PixelSource::BackgroundWindow);
    assert_eq!(colors(&pixels), vec![1, 1, 1, 1, 3, 3, 3, 3]);
    let pixels = read_tile_pixels(&mmu, 5, 2, PixelSource::BackgroundWindow);
    assert_eq!(colors(&pixels), vec![0; 8]);
}

#[test]
fn palettes_map_colors_to_shades() {
    let mut mmu = mmu();
    mmu.write_memory(0xFF47, 0b11_10_01_00).unwrap();
    mmu.write_memory(0xFF48, 0b00_01_10_11).unwrap();
    mmu.write_memory(0xFF49, 0b01_01_01_01).unwrap();
    for color in 0..4u8 {
        assert_eq!(bg(color).through_palette(&mmu), color);
        assert_eq!(obj(color, false).through_palette(&mmu), 3 - color);
        let second = Pixel { color, source: PixelSource::OAM { palette: 1, bg_priority: false } };
        assert_eq!(second.through_palette(&mmu), 1);
    }
}

#[test]
fn pixel_priority() {
    // objects disabled, or a transparent object pixel: the background wins
    assert_eq!(choose_pixel(bg(2), obj(3, false), false), bg(2));
    assert_eq!(choose_pixel(bg(2), obj(0, false), true), bg(2));
    assert_eq!(choose_pixel(bg(0), obj(0, false), true), bg(0));
    // an object with priority wins
    assert_eq!(choose_pixel(bg(2), obj(3, false), true), obj(3, false));
    assert_eq!(choose_pixel(bg(0), obj(1, false), true), obj(1, false));
    // an object behind the background shows where the background is color 0
    assert_eq!(choose_pixel(bg(2), obj(3, true), true), bg(2));
    assert_eq!(choose_pixel(bg(0), obj(3, true), true), obj(3, true));
}

#[test]
fn control_register_bits() {
    let reg = ControlReg::from_bits_truncate(0b0101_1000);
    assert_eq!(reg.background_tile_map_addr(), 0x9C00);
    assert_eq!(reg.window_tile_map_addr(), 0x9C00);
    assert_eq!(reg.addressing_mode(), AddressingMode::From8000);
    assert!(reg.contains(3));
    assert!(!reg.contains(0));
    let reg = ControlReg::from_bits_truncate(0b1010_0111);
    assert_eq!(reg.background_tile_map_addr(), 0x9800);
    assert_eq!(reg.window_tile_map_addr(), 0x9800);
    assert_eq!(reg.addressing_mode(), AddressingMode::From8800);
}

#[test]
fn states_of_a_line() {
    assert_eq!(PPUState::current_state(0, 0), PPUState::OAMSearchBegin);
    assert_eq!(PPUState::current_state(1, 0), PPUState::OAMSearch);
    assert_eq!(PPUState::current_state(78, 143), PPUState::OAMSearch);
    assert_eq!(PPUState::current_state(79, 0), PPUState::OAMSearchEnd);
    assert_eq!(PPUState::current_state(80, 0), PPUState::TransferInit);
    assert_eq!(PPUState::current_state(81, 0), PPUState::Transfer { x: 0 });
    assert_eq!(PPUState::current_state(240, 0), PPUState::Transfer { x: 159 });
    assert_eq!(PPUState::current_state(241, 0), PPUState::PostTransfer);
    assert_eq!(PPUState::current_state(251, 0), PPUState::PostTransfer);
    assert_eq!(PPUState::current_state(252, 0), PPUState::HBlankInit);
    assert_eq!(PPUState::current_state(253, 0), PPUState::HBlank);
    assert_eq!(PPUState::current_state(455, 143), PPUState::HBlank);
    assert_eq!(PPUState::current_state(0, 144), PPUState::VBlankInit);
    assert_eq!(PPUState::current_state(1, 144), PPUState::VBlank);
    assert_eq!(PPUState::current_state(0, 145), PPUState::VBlank);
    assert_eq!(PPUState::current_state(455, 153), PPUState::VBlank);
}

#[test]
fn modes_of_states() {
    assert_eq!(PPUState::OAMSearchBegin.mode(), Mode::OAMSearch);
    assert_eq!(PPUState::Transfer { x: 3 }.mode(), Mode::LCDTransfer);
    assert_eq!(PPUState::PostTransfer.mode(), Mode::LCDTransfer);
    assert_eq!(PPUState::HBlankInit.mode(), Mode::HBlank);
    assert_eq!(PPUState::VBlankInit.mode(), Mode::VBlank);
    assert_eq!(Mode::HBlank.bits(), 0);
    assert_eq!(Mode::VBlank.bits(), 1);
    assert_eq!(Mode::OAMSearch.bits(), 2);
    assert_eq!(Mode::LCDTransfer.bits(), 3);
}

#[test]
fn a_frame_walks_through_every_line_once() {
    let mut mmu = mmu();
    let mut ppu = PPU::new();
    let mut display = Display::new();
    mmu.interrupt_controller.interrupt_flag = 0;
    let mut lines = Vec::new();
    let mut vblanks = 0;
    for dot in 0..456 * 154u32 {
        let before = mmu.interrupt_controller.interrupt_flag & 0x01;
        ppu.cycle(&mut mmu, &mut display).unwrap();
        let ly = mmu.read_memory(0xFF44);
        assert_eq!(ly, ppu.scan_line);
        if lines.last() != Some(&ly) {
            lines.push(ly);
        }
        if before == 0 && mmu.interrupt_controller.interrupt_flag & 0x01 == 1 {
            vblanks += 1;
            assert_eq!(dot, 144 * 456);
            mmu.interrupt_controller.interrupt_flag = 0;
        }
    }
    let mut expected: Vec<u8> = (0..154).collect();
    expected.push(0);
    assert_eq!(lines, expected);
    assert_eq!(vblanks, 1);
    assert_eq!(ppu.scan_line, 0);
    assert_eq!(ppu.dot_in_line, 0);
    assert!(mmu.interrupt_controller.should_redraw);
}

#[test]
fn step_runs_four_dots() {
    let mut mmu = mmu();
    let mut ppu = PPU::new();
    let mut display = Display::new();
    ppu.step(&mut mmu, &mut display).unwrap();
    assert_eq!(ppu.dot_in_line, 4);
    for _ in 0..113 {
        ppu.step(&mut mmu, &mut display).unwrap();
    }
    assert_eq!(ppu.dot_in_line, 0);
    assert_eq!(ppu.scan_line, 1);
    assert_eq!(mmu.read_memory(0xFF44), 1);
}

#[test]
fn status_register_reports_mode_and_coincidence() {
    let mut mmu = mmu();
    let mut ppu = PPU::new();
    let mut display = Display::new();
    mmu.write_memory(0xFF45, 0x01).unwrap();
    mmu.write_memory(0xFF41, 0xF8).unwrap();
    ppu.cycle(&mut mmu, &mut display).unwrap();
    assert_eq!(mmu.read_memory(0xFF41), 0xF8 | 0x02);
    for _ in 0..80 {
        ppu.cycle(&mut mmu, &mut display).unwrap();
    }
    assert_eq!(mmu.read_memory(0xFF41), 0xF8 | 0x03);
    for _ in 0..172 {
        ppu.cycle(&mut mmu, &mut display).unwrap();
    }
    assert_eq!(mmu.read_memory(0xFF41), 0xF8 | 0x00);
    for _ in 0..204 {
        ppu.cycle(&mut mmu, &mut display).unwrap();
    }
    // line 1 equals the compare register
    assert_eq!(mmu.read_memory(0xFF41), 0xF8 | 0x04 | 0x02);
}

#[test]
fn status_interrupt_is_edge_triggered() {
    let mut mmu = mmu();
    let mut ppu = PPU::new();
    let mut display = Display::new();
    mmu.interrupt_controller.interrupt_flag = 0;
    // enable the horizontal blank condition only
    mmu.write_memory(0xFF41, 0x08).unwrap();
    mmu.write_memory(0xFF45, 0xFF).unwrap();
    let mut raised = Vec::new();
    for dot in 0..456 * 2u32 {
        ppu.cycle(&mut mmu, &mut display).unwrap();
        if mmu.interrupt_controller.interrupt_flag & 0x02 != 0 {
            raised.push(dot);
            mmu.interrupt_controller.interrupt_flag = 0;
        }
    }
    assert_eq!(raised, vec![252, 456 + 252]);
}

#[test]
fn status_interrupt_on_coincidence() {
    let mut mmu = mmu();
    let mut ppu = PPU::new();
    let mut display = Display::new();
    mmu.interrupt_controller.interrupt_flag = 0;
    mmu.write_memory(0xFF41, 0x40).unwrap();
    mmu.write_memory(0xFF45, 0x02).unwrap();
    let mut raised = Vec::new();
    for dot in 0..456 * 4u32 {
        ppu.cycle(&mut mmu, &mut display).unwrap();
        if mmu.interrupt_controller.interrupt_flag & 0x02 != 0 {
            raised.push(dot);
            mmu.interrupt_controller.interrupt_flag = 0;
        }
    }
    assert_eq!(raised, vec![2 * 456]);
}

#[test]
fn background_is_drawn_through_the_palette() {
    let mut mmu = mmu();
    let mut ppu = PPU::new();
    let mut display = Display::new();
    // tile 1: all color 3; tile 0: all color 0; map: tile 1 in the first column
    write_tile(&mut mmu, 1, 0xFF, 0xFF);
    mmu.write_memory(0x9800, 0x01).unwrap();
    mmu.write_memory(0xFF40, 0x91).unwrap();
    mmu.write_memory(0xFF47, 0b00_01_10_11).unwrap();
    run_line(&mut ppu, &mut mmu, &mut display);
    assert_eq!(&ppu.frame[0..8], &[0u8; 8]);
    assert_eq!(&ppu.frame[8..16], &[3u8; 8]);
    assert_eq!(ppu.frame[159], 3);
    assert_eq!(ppu.frame[160], 0);
}

#[test]
fn background_scrolls() {
    let mut mmu = mmu();
    let mut ppu = PPU::new();
    let mut display = Display::new();
    write_tile(&mut mmu, 1, 0xFF, 0x00);
    mmu.write_memory(0x9801, 0x01).unwrap();
    mmu.write_memory(0xFF40, 0x91).unwrap();
    mmu.write_memory(0xFF47, 0b11_10_01_00).unwrap();
    mmu.write_memory(0xFF43, 0x03).unwrap();
    run_line(&mut ppu, &mut mmu, &mut display);
    // tile 1 covers map columns 8..16; scrolled by 3 it shows at 5..13
    assert_eq!(&ppu.frame[0..5], &[0u8; 5]);
    assert_eq!(&ppu.frame[5..13], &[1u8; 8]);
    assert_eq!(ppu.frame[13], 0);
}

#[test]
fn signed_tile_addressing() {
    let mut mmu = mmu();
    let mut ppu = PPU::new();
    let mut display = Display::new();
    // identifier 0 names tile 256 when tile data is signed
    write_tile(&mut mmu, 256, 0x00, 0xFF);
    mmu.write_memory(0xFF40, 0x81).unwrap();
    mmu.write_memory(0xFF47, 0b11_10_01_00).unwrap();
    run_line(&mut ppu, &mut mmu, &mut display);
    assert_eq!(&ppu.frame[0..160], &[2u8; 160][..]);
}

#[test]
fn background_switched_off_is_color_zero() {
    let mut mmu = mmu();
    let mut ppu = PPU::new();
    let mut display = Display::new();
    write_tile(&mut mmu, 0, 0xFF, 0xFF);
    mmu.write_memory(0xFF40, 0x90).unwrap();
    mmu.write_memory(0xFF47, 0b11_10_01_10).unwrap();
    run_line(&mut ppu, &mut mmu, &mut display);
    assert_eq!(&ppu.frame[0..160], &[2u8; 160][..]);
}

#[test]
fn window_starts_at_its_position() {
    let mut mmu = mmu();
    let mut ppu = PPU::new();
    let mut display = Display::new();
    // background: tile 0, color 0; window map at 0x9C00: tile 1, color 3
    write_tile(&mut mmu, 1, 0xFF, 0xFF);
    for column in 0..32u16 {
        mmu.write_memory(0x9C00 + column, 0x01).unwrap();
    }
    mmu.write_memory(0xFF40, 0xF1).unwrap();
    mmu.write_memory(0xFF47, 0b11_10_01_00).unwrap();
    mmu.write_memory(0xFF4A, 0x01).unwrap();
    mmu.write_memory(0xFF4B, 7 + 80).unwrap();
    run_line(&mut ppu, &mut mmu, &mut display);
    assert_eq!(&ppu.frame[0..160], &[0u8; 160][..]);
    run_line(&mut ppu, &mut mmu, &mut display);
    assert_eq!(&ppu.frame[160..240], &[0u8; 80][..]);
    assert_eq!(&ppu.frame[240..320], &[3u8; 80][..]);
}

#[test]
fn unsupported_window_position_is_a_fault() {
    let mut mmu = mmu();
    let mut ppu = PPU::new();
    let mut display = Display::new();
    mmu.write_memory(0xFF40, 0xB1).unwrap();
    mmu.write_memory(0xFF4B, 6).unwrap();
    for _ in 0..80 {
        assert_eq!(ppu.cycle(&mut mmu, &mut display), Ok(()));
    }
    assert_eq!(
        ppu.cycle(&mut mmu, &mut display),
        Err(Fault::UnsupportedWindowPosition { wx: 6 })
    );
    assert_eq!(ppu.dot_in_line, 80);
    mmu.write_memory(0xFF4B, 166).unwrap();
    assert_eq!(
        ppu.step(&mut mmu, &mut display),
        Err(Fault::UnsupportedWindowPosition { wx: 166 })
    );
    mmu.write_memory(0xFF4B, 7).unwrap();
    assert_eq!(ppu.cycle(&mut mmu, &mut display), Ok(()));
    assert_eq!(ppu.dot_in_line, 81);
}

#[test]
fn objects_are_drawn_over_the_background() {
    let mut mmu = mmu();
    let mut ppu = PPU::new();
    let mut display = Display::new();
    // tile 2: left half color 1, right half transparent
    write_tile(&mut mmu, 2, 0xF0, 0x00);
    // object 0 at line 0, column 16
    mmu.write_memory(0xFE00, 16).unwrap();
    mmu.write_memory(0xFE01, 8 + 16).unwrap();
    mmu.write_memory(0xFE02, 2).unwrap();
    mmu.write_memory(0xFE03, 0x00).unwrap();
    mmu.write_memory(0xFF40, 0x93).unwrap();
    mmu.write_memory(0xFF47, 0b11_10_01_00).unwrap();
    mmu.write_memory(0xFF48, 0b11_10_11_00).unwrap();
    run_line(&mut ppu, &mut mmu, &mut display);
    assert_eq!(&ppu.frame[0..16], &[0u8; 16]);
    assert_eq!(&ppu.frame[16..20], &[3u8; 4]);
    assert_eq!(&ppu.frame[20..32], &[0u8; 12]);
    // lines 0..7 show the object, line 8 does not
    for _ in 0..8 {
        run_line(&mut ppu, &mut mmu, &mut display);
    }
    assert_eq!(ppu.frame[7 * 160 + 16], 3);
    assert_eq!(ppu.frame[8 * 160 + 16], 0);
}

#[test]
fn flipped_object() {
    let mut mmu = mmu();
    let mut ppu = PPU::new();
    let mut display = Display::new();
    write_tile(&mut mmu, 2, 0xF0, 0x00);
    mmu.write_memory(0xFE00, 16).unwrap();
    mmu.write_memory(0xFE01, 8).unwrap();
    mmu.write_memory(0xFE02, 2).unwrap();
    mmu.write_memory(0xFE03, 0x20).unwrap();
    mmu.write_memory(0xFF40, 0x93).unwrap();
    mmu.write_memory(0xFF48, 0b11_10_01_00).unwrap();
    run_line(&mut ppu, &mut mmu, &mut display);
    assert_eq!(&ppu.frame[0..4], &[0u8; 4]);
    assert_eq!(&ppu.frame[4..8], &[1u8; 4]);
}

#[test]
fn object_behind_the_background() {
    let mut mmu = mmu();
    let mut ppu = PPU::new();
    let mut display = Display::new();
    // background tile 1 in the first column: color 2; second column: tile 0, color 0
    write_tile(&mut mmu, 1, 0x00, 0xFF);
    mmu.write_memory(0x9800, 0x01).unwrap();
    // object tile 2: all color 1, 16 pixels wide through two objects
    write_tile(&mut mmu, 2, 0xFF, 0x00);
    for (index, x) in [(0u16, 8u8), (1, 16)] {
        mmu.write_memory(0xFE00 + index * 4, 16).unwrap();
        mmu.write_memory(0xFE01 + index * 4, x).unwrap();
        mmu.write_memory(0xFE02 + index * 4, 2).unwrap();
        mmu.write_memory(0xFE03 + index * 4, 0x90).unwrap();
    }
    mmu.write_memory(0xFF40, 0x93).unwrap();
    mmu.write_memory(0xFF47, 0b11_10_01_00).unwrap();
    mmu.write_memory(0xFF49, 0b11_10_11_00).unwrap();
    run_line(&mut ppu, &mut mmu, &mut display);
    // over color 2 the background wins; over color 0 the object shows in its palette
    assert_eq!(&ppu.frame[0..8], &[2u8; 8]);
    assert_eq!(&ppu.frame[8..16], &[3u8; 8]);
}

#[test]
fn tall_objects_use_two_tiles() {
    let mut mmu = mmu();
    let mut ppu = PPU::new();
    let mut display = Display::new();
    write_tile(&mut mmu, 4, 0xFF, 0x00);
    write_tile(&mut mmu, 5, 0x00, 0xFF);
    mmu.write_memory(0xFE00, 16).unwrap();
    mmu.write_memory(0xFE01, 8).unwrap();
    // the odd identifier names the same pair
    mmu.write_memory(0xFE02, 5).unwrap();
    mmu.write_memory(0xFE03, 0x00).unwrap();
    mmu.write_memory(0xFF40, 0x97).unwrap();
    mmu.write_memory(0xFF48, 0b11_10_01_00).unwrap();
    for _ in 0..17 {
        run_line(&mut ppu, &mut mmu, &mut display);
    }
    assert_eq!(ppu.frame[0], 1);
    assert_eq!(ppu.frame[7 * 160], 1);
    assert_eq!(ppu.frame[8 * 160], 2);
    assert_eq!(ppu.frame[15 * 160], 2);
    assert_eq!(ppu.frame[16 * 160], 0);
}

#[test]
fn at_most_ten_objects_per_line() {
    let mut mmu = mmu();
    for index in 0..12u16 {
        mmu.write_memory(0xFE00 + index * 4, 16).unwrap();
        mmu.write_memory(0xFE01 + index * 4, 8 + index as u8 * 8).unwrap();
        mmu.write_memory(0xFE02 + index * 4, index as u8).unwrap();
    }
    let mut fifo = PixelFIFO::new();
    fifo.begin_of_line(0);
    fifo.end_of_oam_search(&mmu);
    assert_eq!(fifo.objects.len(), 10);
    let tiles: Vec<u8> = fifo.objects.iter().map(|oam| oam.tile_id).collect();
    assert_eq!(tiles, (0..10).collect::<Vec<u8>>());
    fifo.end_of_line();
    assert!(fifo.objects.is_empty());
    fifo.begin_of_line(8);
    fifo.end_of_oam_search(&mmu);
    assert!(fifo.objects.is_empty());
}

#[test]
fn object_entries() {
    let mut mmu = mmu();
    mmu.write_memory(0xFE04, 0x20).unwrap();
    mmu.write_memory(0xFE05, 0x30).unwrap();
    mmu.write_memory(0xFE06, 0x40).unwrap();
    mmu.write_memory(0xFE07, 0xFF).unwrap();
    let oam = Oam::read_from_memory(&mmu, 0xFE04);
    assert_eq!(oam.y_pos, 0x20);
    assert_eq!(oam.x_pos, 0x30);
    assert_eq!(oam.tile_id, 0x40);
    assert_eq!(
        oam.flags,
        OAMFlags { obj_to_bg_priority: true, y_flip: true, x_flip: true, palette_number: true }
    );
    assert_eq!(OAMFlags::from_bits_truncate(0x40).y_flip, true);
    assert_eq!(OAMFlags::from_bits_truncate(0x4F).x_flip, false);
    // y_pos 0x20 is line 16
    assert!(!oam.is_y_hitting(15, OAMSize::_8x8));
    assert!(oam.is_y_hitting(16, OAMSize::_8x8));
    assert!(oam.is_y_hitting(23, OAMSize::_8x8));
    assert!(!oam.is_y_hitting(24, OAMSize::_8x8));
    assert!(oam.is_y_hitting(31, OAMSize::_8x16));
    assert!(!oam.is_y_hitting(32, OAMSize::_8x16));
    assert_eq!(OAMSize::_8x8.height(), 8);
    assert_eq!(OAMSize::_8x16.height(), 16);
}

#[test]
fn object_at_the_bottom_of_the_byte_range() {
    let oam = Oam {
        y_pos: 250,
        x_pos: 0,
        tile_id: 0,
        flags: OAMFlags::from_bits_truncate(0),
    };
    assert!(!oam.is_y_hitting(0, OAMSize::_8x16));
    assert!(oam.is_y_hitting(239, OAMSize::_8x8));
    assert!(oam.is_y_hitting(249, OAMSize::_8x16));
}

#[test]
fn object_rows_flip() {
    let mut mmu = mmu();
    mmu.write_memory(0x8000 + 3 * 16, 0x80).unwrap();
    mmu.write_memory(0x8000 + 3 * 16 + 14, 0x01).unwrap();
    let plain = Oam { y_pos: 16, x_pos: 8, tile_id: 3, flags: OAMFlags::from_bits_truncate(0) };
    assert_eq!(colors(&plain.get_pixels(&mmu, 0, OAMSize::_8x8)), vec![1, 0, 0, 0, 0, 0, 0, 0]);
    assert_eq!(colors(&plain.get_pixels(&mmu, 7, OAMSize::_8x8)), vec![0, 0, 0, 0, 0, 0, 0, 1]);
    let flipped =
        Oam { y_pos: 16, x_pos: 8, tile_id: 3, flags: OAMFlags::from_bits_truncate(0x60) };
    assert_eq!(colors(&flipped.get_pixels(&mmu, 0, OAMSize::_8x8)), vec![1, 0, 0, 0, 0, 0, 0, 0]);
    assert_eq!(colors(&flipped.get_pixels(&mmu, 7, OAMSize::_8x8)), vec![0, 0, 0, 0, 0, 0, 0, 1]);
    let second = Oam { y_pos: 16, x_pos: 8, tile_id: 3, flags: OAMFlags::from_bits_truncate(0x90) };
    let pixels = second.get_pixels(&mmu, 0, OAMSize::_8x8);
    assert_eq!(pixels[0].source, PixelSource::OAM { palette: 1, bg_priority: true });
}

#[test]
fn fetchers() {
    let window = Fetcher::new_window(0x9C00, AddressingMode::From8000, 19);
    assert_eq!(window.kind, FetcherKind::Window);
    assert_eq!((window.tile_x, window.tile_y, window.sub_y), (0, 2, 3));
    let background = Fetcher::new_background(0x9800, AddressingMode::From8800, 13, 250, 10);
    assert_eq!(background.kind, FetcherKind::Background);
    assert_eq!((background.tile_x, background.tile_y, background.sub_y), (1, 0, 4));
}

#[test]
fn fetcher_walks_around_the_map() {
    let mut mmu = mmu();
    write_tile(&mut mmu, 1, 0xFF, 0x00);
    mmu.write_memory(0x9800 + 2 * 32 + 31, 0x01).unwrap();
    let mut fetcher = Fetcher::new_background(0x9800, AddressingMode::From8000, 31 * 8, 16, 0);
    assert_eq!(fetcher.tile_x, 31);
    assert_eq!(colors(&fetcher.fetch_pixels(&mmu)), vec![1; 8]);
    assert_eq!(fetcher.tile_x, 0);
    assert_eq!(colors(&fetcher.fetch_pixels(&mmu)), vec![0; 8]);
    assert_eq!(fetcher.tile_x, 1);
}

#[test]
fn pixel_pipeline_by_hand() {
    let mut mmu = mmu();
    write_tile(&mut mmu, 0, 0xAA, 0x00);
    mmu.write_memory(0xFF40, 0x91).unwrap();
    let mut fifo = PixelFIFO::new();
    fifo.begin_of_line(0);
    fifo.end_of_oam_search(&mmu);
    fifo.begin_lcd_transfer(&mmu).unwrap();
    let mut line = Vec::new();
    for _ in 0..16 {
        line.push(fifo.next_pixel(&mmu).unwrap().color);
    }
    assert_eq!(line, vec![1, 0, 1, 0, 1, 0, 1, 0, 1, 0, 1, 0, 1, 0, 1, 0]);
    assert_eq!(fifo.current_x, 16);
    fifo.end_of_line();
    assert!(fifo.background_window_fetcher.is_none());
    fifo.end_of_frame();
    assert_eq!(fifo.window_scan_line, None);
}

#[test]
fn frame_is_shown_at_the_start_of_the_next() {
    let mut mmu = mmu();
    let mut ppu = PPU::new();
    let mut display = Display::new();
    write_tile(&mut mmu, 0, 0xFF, 0xFF);
    mmu.write_memory(0xFF40, 0x91).unwrap();
    mmu.write_memory(0xFF47, 0b11_10_01_10).unwrap();
    for _ in 0..154 {
        run_line(&mut ppu, &mut mmu, &mut display);
    }
    assert!(ppu.frame.iter().all(|&shade| shade == 3));
    assert!(display.frame.iter().all(|&shade| shade == 0));
    ppu.cycle(&mut mmu, &mut display).unwrap();
    assert!(display.frame.iter().all(|&shade| shade == 3));
    assert!(ppu.frame.iter().all(|&shade| shade == 0));
}

#[test]
fn display_draws_gray_levels() {
    let mut display = Display::new();
    let mut frame = vec![0u8; PIXEL_COUNT];
    frame[0] = 0;
    frame[1] = 1;
    frame[2] = 2;
    frame[3] = 3;
    frame[PIXEL_COUNT - 1] = 2;
    display.push_frame(&frame);
    let mut fb = vec![7u8; PIXEL_COUNT * 4];
    display.draw_into_fb(&mut fb);
    assert_eq!(&fb[0..4], &[255, 255, 255, 255]);
    assert_eq!(&fb[4..8], &[170, 170, 170, 255]);
    assert_eq!(&fb[8..12], &[85, 85, 85, 255]);
    assert_eq!(&fb[12..16], &[0, 0, 0, 255]);
    assert_eq!(&fb[16..20], &[255, 255, 255, 255]);
    assert_eq!(&fb[PIXEL_COUNT * 4 - 4..], &[85, 85, 85, 255]);
}

#[test]
fn tile_data_picture() {
    let mut mmu = mmu();
    // tile 0, row 0: first pixel color 3; tile 21, row 2: last pixel color 1
    mmu.write_memory(0x8000, 0x80).unwrap();
    mmu.write_memory(0x8001, 0x80).unwrap();
    mmu.write_memory(0x8000 + 21 * 16 + 4, 0x01).unwrap();
    // the last tile, 383
    mmu.write_memory(0x8000 + 383 * 16, 0xFF).unwrap();
    let mut fb = vec![9u8; 160 * 160 * 4];
    Display::draw_tiles_into_fb(&mmu, &mut fb);
    assert_eq!(&fb[0..4], &[0, 0, 0, 255]);
    assert_eq!(&fb[4..8], &[255, 255, 255, 255]);
    let pixel = (8 + 2) * 160 + 8 + 7;
    assert_eq!(&fb[pixel * 4..pixel * 4 + 4], &[170, 170, 170, 255]);
    // tile 383 stands in row 19, column 3
    let pixel = 19 * 8 * 160 + 3 * 8;
    assert_eq!(&fb[pixel * 4..pixel * 4 + 4], &[170, 170, 170, 255]);
    // behind the last tile nothing is drawn
    let pixel = 19 * 8 * 160 + 4 * 8;
    assert_eq!(&fb[pixel * 4..pixel * 4 + 4], &[9, 9, 9, 9]);
}

#[test]
fn emulator_runs_a_program() {
    let mut rom = vec![0u8; 0x8000];
    // LD A,'!'; LDH (0x01),A; LD A,0x81; LDH (0x02),A; JR -2
    let program = [0x3E, b'!', 0xE0, 0x01, 0x3E, 0x81, 0xE0, 0x02, 0x18, 0xFE];
    rom[0x100..0x100 + program.len()].copy_from_slice(&program);
    let mut emulator = Emulator::new(&rom, None).unwrap();
    assert_eq!(emulator.cpu.pc, 0x0100);
    assert_eq!(emulator.run(100), Ok(()));
    assert_eq!(emulator.mmu.take_serial_output(), vec![b'!']);
    assert_eq!(emulator.cpu.pc, 0x0108);
    assert_eq!(emulator.ppu.dot_in_line, 400);
}

#[test]
fn emulator_with_a_boot_rom() {
    let rom = vec![0u8; 0x8000];
    // LD SP,0xFFFE; LD A,1; LDH (0x50),A
    let boot = [0x31, 0xFE, 0xFF, 0x3E, 0x01, 0xE0, 0x50];
    let mut emulator = Emulator::new(&rom, Some(&boot)).unwrap();
    assert_eq!(emulator.cpu.pc, 0x0000);
    assert_eq!(emulator.mmu.read_memory(0x0000), 0x31);
    emulator.run(3 + 2 + 3).unwrap();
    assert_eq!(emulator.cpu.sp, 0xFFFE);
    assert_eq!(emulator.mmu.read_memory(0x0000), 0x00);
}

#[test]
fn emulator_reports_faults() {
    let mut rom = vec![0u8; 0x8000];
    rom[0x100] = 0xFC;
    let mut emulator = Emulator::new(&rom, None).unwrap();
    assert_eq!(emulator.cycle(), Err(Fault::UnknownOpcode { opcode: 0xFC, pc: 0x0100 }));
    assert!(Emulator::new(&[0u8; 16], None).is_err());
}

#[test]
fn emulator_cycle_counts_dma() {
    let mut rom = vec![0u8; 0x8000];
    // LD A,0xC0; LDH (0x46),A; then NOPs
    let program = [0x3E, 0xC0, 0xE0, 0x46];
    rom[0x100..0x100 + program.len()].copy_from_slice(&program);
    let mut emulator = Emulator::new(&rom, None).unwrap();
    emulator.mmu.write_memory(0xC000, 0x42).unwrap();
    emulator.run(5).unwrap();
    assert!(emulator.mmu.waiting_dma.is_some());
    emulator.run(159).unwrap();
    assert_eq!(emulator.mmu.read_memory(0xFE00), 0x00);
    emulator.run(1).unwrap();
    assert_eq!(emulator.mmu.read_memory(0xFE00), 0x42);
}

#[test]
fn default_display_is_white() {
    let display = Display::default();
    assert_eq!(display.frame.len(), PIXEL_COUNT);
    let mut fb = vec![0u8; PIXEL_COUNT * 4];
    display.draw_into_fb(&mut fb);
    assert!(fb.iter().all(|&byte| byte == 255));
}

#[test]
fn tile_data_picture_in_the_smallest_buffer() {
    let mut mmu = mmu();
    mmu.write_memory(0x8000 + 383 * 16 + 14, 0x01).unwrap();
    let mut fb = vec![9u8; (159 * 160 + 32) * 4];
    Display::draw_tiles_into_fb(&mmu, &mut fb);
    let last = fb.len() - 4;
    assert_eq!(&fb[last..], &[170, 170, 170, 255]);
    assert_eq!(&fb[last - 4..last], &[255, 255, 255, 255]);
}

#[test]
fn tiles_beyond_the_tile_data_can_be_read() {
    let mut mmu = mmu();
    mmu.write_memory(0xC000, 0xFF).unwrap();
    mmu.write_memory(0xC001, 0xFF).unwrap();
    let pixels = read_tile_pixels(&mmu, 0x400, 0, PixelSource::BackgroundWindow);
    assert_eq!(colors(&pixels), vec![3; 8]);
}
