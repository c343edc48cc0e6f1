use gbemu::fault::{CartridgeError, Fault};
use gbemu::interrupt::InterruptController;
use gbemu::memory::dma::DMAInfo;
use gbemu::memory::mbc1::MBC1;
use gbemu::memory::mmu::MMU;
use gbemu::memory::simple::Simple;
use gbemu::memory::store::{padded_copy, zeroed};
use gbemu::memory::{build_mbc, read_cartridge, CGBFlag, Cartridge, Memory, MBC};
use gbemu::serial::{SerialBuffer, SerialWrite};

fn image(kind: u8, rom_tag: u8, ram_tag: u8) -> Vec<u8> {
    let mut rom = vec![0u8; 0x8000usize << rom_tag];
    rom[0x0147] = kind;
    rom[0x0148] = rom_tag;
    rom[0x0149] = ram_tag;
    for bank in 0..rom.len() / 0x4000 {
        rom[bank * 0x4000 + 0x2000] = bank as u8;
    }
    rom
}

fn mmu_with(rom: &[u8]) -> MMU {
    let mbc = build_mbc(rom).unwrap();
    let mut mmu = MMU::new(mbc, InterruptController::new(), SerialBuffer::new());
    mmu.unmount_bootstrap_rom();
    mmu
}

fn plain_mmu() -> MMU {
    mmu_with(&image(0, 0, 0))
}

#[test]
fn echo_ram_aliases_work_ram() {
    let mut mmu = plain_mmu();
    for (addr, value) in [(0xE000u16, 0x11u8), (0xE123, 0x22), (0xFDFF, 0x33)] {
        mmu.write_memory(addr, value).unwrap();
        assert_eq!(mmu.read_memory(addr - 0x2000), value);
        assert_eq!(mmu.read_memory(addr), value);
        mmu.write_memory(addr - 0x2000, !value).unwrap();
        assert_eq!(mmu.read_memory(addr), !value);
    }
}

#[test]
fn echo_ram_over_the_whole_region() {
    let mut mmu = plain_mmu();
    for addr in 0xE000u16..=0xFDFF {
        let value = (addr % 251) as u8;
        mmu.write_memory(addr, value).unwrap();
        assert_eq!(mmu.read_memory(addr - 0x2000), value);
    }
    for addr in 0xC000u16..=0xDDFF {
        let value = (addr % 241) as u8;
        mmu.write_memory(addr, value).unwrap();
        assert_eq!(mmu.read_memory(addr + 0x2000), value);
    }
}

#[test]
fn unusable_region_reads_ff() {
    let mut mmu = plain_mmu();
    for addr in 0xFEA0u16..=0xFEFF {
        assert_eq!(mmu.read_memory(addr), 0xFF);
        mmu.write_memory(addr, 0x12).unwrap();
        assert_eq!(mmu.read_memory(addr), 0xFF);
    }
}

#[test]
fn internal_memories_hold_what_is_written() {
    let mut mmu = plain_mmu();
    for addr in [0x8000u16, 0x9FFF, 0xC000, 0xDFFF, 0xFE00, 0xFE9F, 0xFF80, 0xFFFE] {
        mmu.write_memory(addr, 0xA5).unwrap();
        assert_eq!(mmu.read_memory(addr), 0xA5);
    }
    mmu.write_memory(0xFFFF, 0x1F).unwrap();
    assert_eq!(mmu.read_memory(0xFFFF), 0x1F);
    assert_eq!(mmu.interrupt_controller.interrupt_enable, 0x1F);
}

#[test]
fn new_mmu_defaults() {
    let mbc = build_mbc(&image(0, 0, 0)).unwrap();
    let mmu = MMU::new(mbc, InterruptController::new(), SerialBuffer::new());
    assert_eq!(mmu.read_memory(0xFF4D), 0xFF);
    assert_eq!(mmu.read_memory(0xFF50), 0x00);
    assert_eq!(mmu.read_memory(0xC000), 0x00);
    assert_eq!(mmu.read_memory(0xFF0F), 0xE0);
    assert!(mmu.waiting_dma.is_none());
}

#[test]
fn oam_dma_copies_after_160_ticks() {
    let mut mmu = plain_mmu();
    for offset in 0..0xA0u16 {
        mmu.write_memory(0xC100 + offset, (offset as u8) ^ 0x5A).unwrap();
    }
    mmu.write_memory(0xFF46, 0xC1).unwrap();
    assert_eq!(mmu.read_memory(0xFF46), 0xC1);
    for _ in 0..159 {
        mmu.tick();
    }
    assert_eq!(mmu.read_memory(0xFE00), 0x00);
    assert!(mmu.waiting_dma.is_some());
    mmu.tick();
    assert!(mmu.waiting_dma.is_none());
    for offset in 0..0xA0u16 {
        assert_eq!(mmu.read_memory(0xFE00 + offset), (offset as u8) ^ 0x5A);
    }
    mmu.tick();
    assert_eq!(mmu.read_memory(0xFE00), 0x5A);
}

#[test]
fn oam_dma_from_rom() {
    let mut rom = image(0, 0, 0);
    for offset in 0..0xA0usize {
        rom[0x3000 + offset] = offset as u8;
    }
    let mut mmu = mmu_with(&rom);
    mmu.write_memory(0xFF46, 0x30).unwrap();
    for _ in 0..160 {
        mmu.tick();
    }
    for offset in 0..0xA0u16 {
        assert_eq!(mmu.read_memory(0xFE00 + offset), offset as u8);
    }
}

#[test]
fn second_dma_request_is_ignored_while_one_waits() {
    let mut mmu = plain_mmu();
    mmu.write_memory(0xC000, 0x77).unwrap();
    mmu.write_memory(0xD000, 0x99).unwrap();
    mmu.write_memory(0xFF46, 0xC0).unwrap();
    mmu.tick();
    mmu.write_memory(0xFF46, 0xD0).unwrap();
    assert_eq!(mmu.read_memory(0xFF46), 0xD0);
    for _ in 0..159 {
        mmu.tick();
    }
    assert_eq!(mmu.read_memory(0xFE00), 0x77);
}

#[test]
fn dma_countdown() {
    let mut dma = DMAInfo::new(0xC0);
    assert_eq!(dma.high_byte_addr, 0xC0);
    assert_eq!(dma.timer, 160);
    for _ in 0..159 {
        assert!(!dma.tick());
    }
    assert!(dma.tick());
    assert_eq!(dma.timer, 0);
}

#[test]
fn boot_rom_overlay() {
    let mut rom = image(0, 0, 0);
    rom[0x0000] = 0xAA;
    rom[0x00FF] = 0xBB;
    rom[0x0100] = 0xCC;
    let mbc = build_mbc(&rom).unwrap();
    let mut mmu = MMU::new(mbc, InterruptController::new(), SerialBuffer::new());
    mmu.write_bootstrap_rom(&[0x31, 0xFE, 0xFF]);
    assert_eq!(mmu.read_memory(0x0000), 0x31);
    assert_eq!(mmu.read_memory(0x0002), 0xFF);
    assert_eq!(mmu.read_memory(0x0003), 0x00);
    assert_eq!(mmu.read_memory(0x00FF), 0x00);
    assert_eq!(mmu.read_mounted_rom(0x0001), 0xFE);
    assert_eq!(mmu.read_memory(0x0100), 0xCC);
    mmu.write_memory(0xFF50, 0x01).unwrap();
    assert_eq!(mmu.read_memory(0x0000), 0xAA);
    assert_eq!(mmu.read_memory(0x00FF), 0xBB);
    assert_eq!(mmu.read_mounted_rom(0x0000), 0xAA);
}

#[test]
fn boot_rom_unmount_is_permanent() {
    let mut rom = image(0, 0, 0);
    rom[0x0000] = 0xAA;
    let mbc = build_mbc(&rom).unwrap();
    let mut mmu = MMU::new(mbc, InterruptController::new(), SerialBuffer::new());
    mmu.write_bootstrap_rom(&[0x31]);
    mmu.unmount_bootstrap_rom();
    assert_eq!(mmu.read_memory(0x0000), 0xAA);
    mmu.write_memory(0xFF50, 0x00).unwrap();
    assert_eq!(mmu.read_memory(0x0000), 0xAA);
    assert_eq!(mmu.read_memory(0xFF50), 0x01);
}

#[test]
fn cartridge_writes_are_swallowed_while_boot_rom_is_mounted() {
    let mbc = build_mbc(&image(1, 1, 0)).unwrap();
    let mut mmu = MMU::new(mbc, InterruptController::new(), SerialBuffer::new());
    // would enable the RAM of the cartridge if it went through
    assert_eq!(mmu.write_memory(0x0000, 0x0A), Ok(()));
    assert_eq!(mmu.write_mounted_rom(0x0010, 0x0A), Ok(()));
    match &mmu.mbc {
        Cartridge::Mbc1(mbc) => assert!(!mbc.ram_enabled),
        Cartridge::Simple(_) => panic!("expected an MBC1"),
    }
    mmu.unmount_bootstrap_rom();
    mmu.write_memory(0x0000, 0x0A).unwrap();
    match &mmu.mbc {
        Cartridge::Mbc1(mbc) => assert!(mbc.ram_enabled),
        Cartridge::Simple(_) => panic!("expected an MBC1"),
    }
}

#[test]
fn divider_write_clears_it() {
    let mut mmu = plain_mmu();
    mmu.interrupt_controller.timer_step(256 * 5);
    assert_eq!(mmu.read_memory(0xFF04), 5);
    mmu.write_memory(0xFF04, 0x77).unwrap();
    assert_eq!(mmu.read_memory(0xFF04), 0);
}

#[test]
fn timer_and_interrupt_registers_live_in_the_controller() {
    let mut mmu = plain_mmu();
    mmu.write_memory(0xFF05, 0x12).unwrap();
    mmu.write_memory(0xFF06, 0x34).unwrap();
    mmu.write_memory(0xFF07, 0x05).unwrap();
    mmu.write_memory(0xFF0F, 0x1B).unwrap();
    assert_eq!(mmu.interrupt_controller.timer_counter, 0x12);
    assert_eq!(mmu.interrupt_controller.timer_modulo, 0x34);
    assert_eq!(mmu.interrupt_controller.timer_control, 0x05);
    assert_eq!(mmu.interrupt_controller.interrupt_flag, 0x1B);
    assert_eq!(mmu.read_memory(0xFF05), 0x12);
    assert_eq!(mmu.read_memory(0xFF06), 0x34);
    assert_eq!(mmu.read_memory(0xFF07), 0x05);
    assert_eq!(mmu.read_memory(0xFF0F), 0x1B);
    assert_eq!(mmu.read_io_reg(0xFF07), 0x05);
    mmu.write_io_reg(0xFF42, 0x66);
    assert_eq!(mmu.read_io_reg(0xFF42), 0x66);
}

#[test]
fn joypad_register_through_the_mmu() {
    let mut mmu = plain_mmu();
    mmu.interrupt_controller.change_key_state(gbemu::interrupt::Keys::A, true);
    mmu.write_memory(0xFF00, 0x10).unwrap();
    assert_eq!(mmu.read_memory(0xFF00), 0xDE);
    mmu.write_memory(0xFF00, 0x20).unwrap();
    assert_eq!(mmu.read_memory(0xFF00), 0xEF);
}

#[test]
fn serial_transfer_sends_the_data_register() {
    let mut mmu = plain_mmu();
    mmu.write_memory(0xFF01, b'o').unwrap();
    mmu.write_memory(0xFF02, 0x81).unwrap();
    mmu.write_memory(0xFF01, b'k').unwrap();
    mmu.write_memory(0xFF02, 0x80).unwrap();
    mmu.write_memory(0xFF02, 0x81).unwrap();
    assert_eq!(mmu.read_memory(0xFF02), 0x81);
    assert_eq!(mmu.take_serial_output(), b"ok".to_vec());
    assert!(mmu.take_serial_output().is_empty());
}

#[test]
fn serial_buffer_keeps_bytes_in_order() {
    let mut buffer = SerialBuffer::new();
    buffer.write_byte(1);
    buffer.write_byte(2);
    buffer.write_byte(3);
    assert_eq!(buffer.take(), vec![1, 2, 3]);
    assert_eq!(buffer.take(), Vec::<u8>::new());
}

#[test]
fn plain_cartridge_serves_rom_and_ignores_writes() {
    let mut rom = image(0, 0, 0);
    rom[0x0000] = 0x12;
    rom[0x0040] = 0x34;
    rom[0x7FFF] = 0x56;
    let mut mmu = mmu_with(&rom);
    assert_eq!(mmu.read_memory(0x0000), 0x12);
    assert_eq!(mmu.read_memory(0x0040), 0x34);
    assert_eq!(mmu.read_memory(0x7FFF), 0x56);
    assert_eq!(mmu.write_memory(0x2000, 0x05), Ok(()));
    assert_eq!(mmu.write_memory(0x6000, 0x01), Ok(()));
    assert_eq!(mmu.read_memory(0x7FFF), 0x56);
    assert_eq!(mmu.read_memory(0xA000), 0xFF);
    mmu.write_memory(0xA000, 0x01).unwrap();
    assert_eq!(mmu.read_memory(0xA000), 0xFF);
}

#[test]
fn simple_pads_short_images() {
    let mut mbc = Simple::new(&[1, 2, 3]);
    assert_eq!(mbc.rom.len(), 0x8000);
    assert_eq!(mbc.read_memory(0x0000), 1);
    assert_eq!(mbc.read_memory(0x0002), 3);
    assert_eq!(mbc.read_memory(0x0003), 0);
    assert_eq!(mbc.read_memory(0x9000), 0xFF);
    mbc.write_memory(0x0000, 9);
    assert_eq!(mbc.read_memory(0x0000), 1);
}

#[test]
fn mbc1_selects_rom_banks() {
    let mut mmu = mmu_with(&image(1, 2, 0));
    // 8 banks; bank 1 is selected at power-on
    assert_eq!(mmu.read_memory(0x2000), 0);
    assert_eq!(mmu.read_memory(0x6000), 1);
    mmu.write_memory(0x2000, 0x03).unwrap();
    assert_eq!(mmu.read_memory(0x6000), 3);
    // writing 0 selects bank 1
    mmu.write_memory(0x2000, 0x00).unwrap();
    assert_eq!(mmu.read_memory(0x6000), 1);
    // only five bits count, then the bank count
    mmu.write_memory(0x3FFF, 0xE5).unwrap();
    assert_eq!(mmu.read_memory(0x6000), 5);
    mmu.write_memory(0x2000, 0x0A).unwrap();
    assert_eq!(mmu.read_memory(0x6000), 2);
    // a multiple of the bank count wraps to 0 and then goes to 1
    mmu.write_memory(0x2000, 0x08).unwrap();
    assert_eq!(mmu.read_memory(0x6000), 1);
    assert_eq!(mmu.read_memory(0x2000), 0);
}

#[test]
fn mbc1_bank_with_zero_low_nibble_goes_to_the_next() {
    let mut mmu = mmu_with(&image(1, 4, 0));
    // 32 banks
    mmu.write_memory(0x2000, 0x10).unwrap();
    assert_eq!(mmu.read_memory(0x6000), 0x11);
    mmu.write_memory(0x2000, 0x1F).unwrap();
    assert_eq!(mmu.read_memory(0x6000), 0x1F);
}

#[test]
fn mbc1_ram_enable_latch() {
    let mut mmu = mmu_with(&image(3, 0, 3));
    assert_eq!(mmu.read_memory(0xA000), 0xFF);
    mmu.write_memory(0xA000, 0x42).unwrap();
    mmu.write_memory(0x0000, 0x0A).unwrap();
    assert_eq!(mmu.read_memory(0xA000), 0x00);
    mmu.write_memory(0xA000, 0x42).unwrap();
    mmu.write_memory(0xBFFF, 0x43).unwrap();
    assert_eq!(mmu.read_memory(0xA000), 0x42);
    assert_eq!(mmu.read_memory(0xBFFF), 0x43);
    // only the low nibble counts
    mmu.write_memory(0x1FFF, 0x3A).unwrap();
    assert_eq!(mmu.read_memory(0xA000), 0x42);
    mmu.write_memory(0x0000, 0x00).unwrap();
    assert_eq!(mmu.read_memory(0xA000), 0xFF);
    mmu.write_memory(0x0000, 0x0A).unwrap();
    assert_eq!(mmu.read_memory(0xA000), 0x42);
}

#[test]
fn mbc1_ram_banks() {
    let mut mmu = mmu_with(&image(2, 0, 3));
    mmu.write_memory(0x0000, 0x0A).unwrap();
    mmu.write_memory(0xA000, 0x11).unwrap();
    mmu.write_memory(0x4000, 0x01).unwrap();
    assert_eq!(mmu.read_memory(0xA000), 0x00);
    mmu.write_memory(0xA000, 0x22).unwrap();
    mmu.write_memory(0x5FFF, 0xFC).unwrap();
    assert_eq!(mmu.read_memory(0xA000), 0x11);
    mmu.write_memory(0x4000, 0x01).unwrap();
    assert_eq!(mmu.read_memory(0xA000), 0x22);
    // beyond the RAM that the cartridge has
    mmu.write_memory(0x4000, 0x03).unwrap();
    assert_eq!(mmu.read_memory(0xA000), 0xFF);
    mmu.write_memory(0xA000, 0x33).unwrap();
    assert_eq!(mmu.read_memory(0xA000), 0xFF);
}

#[test]
fn mbc1_without_ram_reads_ff() {
    let mut mmu = mmu_with(&image(1, 0, 3));
    mmu.write_memory(0x0000, 0x0A).unwrap();
    assert_eq!(mmu.read_memory(0xA000), 0xFF);
    mmu.write_memory(0xA000, 0x42).unwrap();
    assert_eq!(mmu.read_memory(0xA000), 0xFF);
}

#[test]
fn mbc1_second_banking_mode_is_a_fault() {
    let mut mmu = mmu_with(&image(1, 1, 0));
    assert_eq!(mmu.write_memory(0x6000, 0x00), Ok(()));
    assert_eq!(
        mmu.write_memory(0x6000, 0x01),
        Err(Fault::UnsupportedBankingMode { addr: 0x6000, value: 0x01 })
    );
    assert_eq!(
        mmu.write_memory(0x7FFF, 0x80),
        Err(Fault::UnsupportedBankingMode { addr: 0x7FFF, value: 0x80 })
    );
    assert_eq!(mmu.read_memory(0x6000), 1);
}

#[test]
fn mbc1_direct_construction() {
    let content = vec![7u8; 0x8000];
    let mut mbc = MBC1::new(&content, 0x10000, 0x2000);
    assert_eq!(mbc.bank_count, 2);
    assert_eq!(mbc.bank_lo, 1);
    assert_eq!(mbc.rom.len(), 0x10000);
    assert_eq!(mbc.ram.len(), 0x2000);
    assert!(!mbc.ram_enabled);
    assert_eq!(mbc.read_memory(0x0000), 7);
    assert_eq!(mbc.read_memory(0x7FFF), 7);
    assert_eq!(mbc.read_memory(0x8000), 0xFF);
    assert_eq!(mbc.write_memory(0x2000, 0x01), Ok(()));
    assert_eq!(mbc.rom[0x8000], 0);
}

#[test]
fn cartridge_header_is_read() {
    let mut rom = image(3, 1, 2);
    rom[0x0143] = 0x80;
    let (mbc, flag) = read_cartridge(&rom).unwrap();
    assert_eq!(flag, CGBFlag::CGBFeatures);
    match mbc {
        Cartridge::Mbc1(mbc) => {
            assert_eq!(mbc.bank_count, 4);
            assert_eq!(mbc.rom.len(), 0x10000);
            assert_eq!(mbc.ram.len(), 0x2000);
        }
        Cartridge::Simple(_) => panic!("expected an MBC1"),
    }
    rom[0x0143] = 0xC0;
    assert_eq!(read_cartridge(&rom).unwrap().1, CGBFlag::CGBOnly);
    rom[0x0143] = 0x00;
    assert_eq!(read_cartridge(&rom).unwrap().1, CGBFlag::DMG);
}

#[test]
fn cartridge_ram_sizes() {
    let sizes = [(0u8, 0usize), (1, 0x800), (2, 0x2000), (3, 0x8000), (4, 0x20000), (5, 0x10000)];
    for (tag, size) in sizes {
        match build_mbc(&image(2, 0, tag)).unwrap() {
            Cartridge::Mbc1(mbc) => assert_eq!(mbc.ram.len(), size),
            Cartridge::Simple(_) => panic!("expected an MBC1"),
        }
    }
    // type 1 has no RAM whatever the header says
    match build_mbc(&image(1, 0, 3)).unwrap() {
        Cartridge::Mbc1(mbc) => assert_eq!(mbc.ram.len(), 0),
        Cartridge::Simple(_) => panic!("expected an MBC1"),
    }
}

#[test]
fn cartridge_errors() {
    assert_eq!(build_mbc(&[0u8; 0x14F]).err(), Some(CartridgeError::MissingHeader { len: 0x14F }));
    assert_eq!(build_mbc(&[]).err(), Some(CartridgeError::MissingHeader { len: 0 }));

    let mut rom = image(0, 0, 0);
    rom[0x0148] = 9;
    assert_eq!(
        build_mbc(&rom).err(),
        Some(CartridgeError::SizeMismatch { tag: 9, actual: 0x8000 })
    );
    assert_eq!(read_cartridge(&rom).err(), Some(CartridgeError::UnsupportedRomSize { tag: 9 }));
    rom[0x0148] = 0xFF;
    assert_eq!(
        build_mbc(&rom).err(),
        Some(CartridgeError::SizeMismatch { tag: 0xFF, actual: 0x8000 })
    );

    let mut rom = image(1, 0, 0);
    rom[0x0148] = 1;
    assert_eq!(
        build_mbc(&rom).err(),
        Some(CartridgeError::SizeMismatch { tag: 1, actual: 0x8000 })
    );

    let rom = image(1, 0, 6);
    assert_eq!(build_mbc(&rom).err(), Some(CartridgeError::UnknownRamSize { tag: 6 }));

    let rom = image(4, 0, 0);
    assert_eq!(build_mbc(&rom).err(), Some(CartridgeError::UnsupportedType { tag: 4 }));
    assert_eq!(read_cartridge(&rom).err(), Some(CartridgeError::UnsupportedType { tag: 4 }));

    // plain ROM of more than 32 KiB
    let rom = image(0, 1, 0);
    assert_eq!(build_mbc(&rom).err(), Some(CartridgeError::UnsupportedRomSize { tag: 1 }));
}

#[test]
fn byte_arrays() {
    assert_eq!(zeroed(3), vec![0, 0, 0]);
    assert_eq!(padded_copy(&[1, 2], 4), vec![1, 2, 0, 0]);
    assert_eq!(padded_copy(&[1, 2, 3], 2), vec![1, 2]);
    assert_eq!(padded_copy(&[], 0), Vec::<u8>::new());
}

#[test]
fn memory_through_its_interface() {
    fn poke<M: Memory>(memory: &mut M) -> u8 {
        memory.write_memory(0xC123, 0x5A).unwrap();
        memory.tick();
        memory.read_memory(0xE123)
    }
    fn peek<C: MBC>(cartridge: &mut C, addr: u16) -> u8 {
        cartridge.write_memory(0x2000, 0x02).unwrap();
        cartridge.read_memory(addr)
    }
    let mut mmu = plain_mmu();
    assert_eq!(poke(&mut mmu), 0x5A);
    let mut banked = build_mbc(&image(1, 2, 0)).unwrap();
    assert_eq!(peek(&mut banked, 0x6000), 2);
    let mut plain = Simple::new(&image(0, 0, 0));
    assert_eq!(peek(&mut plain, 0x6000), 1);
    let mut mbc1 = MBC1::new(&image(1, 1, 0), 0x10000, 0);
    assert_eq!(peek(&mut mbc1, 0x6000), 2);
    assert_eq!(
        MBC::write_memory(&mut mbc1, 0x6000, 1),
        Err(Fault::UnsupportedBankingMode { addr: 0x6000, value: 1 })
    );
}

#[test]
fn large_rom_size_classes() {
    // 16 MiB, class 9, MBC1 without RAM
    let mut rom = vec![0u8; 0x8000usize << 9];
    rom[0x0147] = 0x01;
    rom[0x0148] = 0x09;
    rom[0x0100] = 0x12;
    rom[0x3FFF] = 0x34;
    rom[3 * 0x4000 + 5] = 0x56;
    let mut cartridge = build_mbc(&rom).unwrap();
    match &cartridge {
        Cartridge::Mbc1(mbc) => {
            assert_eq!(mbc.bank_count, 1024);
            assert_eq!(mbc.rom.len(), 0x8000 << 9);
            assert_eq!(mbc.ram.len(), 0);
        }
        Cartridge::Simple(_) => panic!("expected an MBC1"),
    }
    assert_eq!(cartridge.read_memory(0x0100), 0x12);
    assert_eq!(cartridge.read_memory(0x3FFF), 0x34);
    cartridge.write_memory(0x2000, 0x03).unwrap();
    assert_eq!(cartridge.read_memory(0x4005), 0x56);
    assert_eq!(read_cartridge(&rom).err(), Some(CartridgeError::UnsupportedRomSize { tag: 9 }));
    // the class must still match the length
    rom[0x0148] = 0x0A;
    assert_eq!(
        build_mbc(&rom).err(),
        Some(CartridgeError::SizeMismatch { tag: 0x0A, actual: 0x8000 << 9 })
    );
    // plain ROM takes class 0 only
    rom[0x0147] = 0x00;
    rom[0x0148] = 0x09;
    assert_eq!(build_mbc(&rom).err(), Some(CartridgeError::UnsupportedRomSize { tag: 9 }));
}
