use virtual_nes::cartridge::Mirroring;
use virtual_nes::ppu::AddrRegister;
use virtual_nes::ppu::ControlRegister;
use virtual_nes::ppu::PPU;
use virtual_nes::ppu::PpuError;

#[test]
fn two_writes_build_one_address() {
    let mut addr = AddrRegister::new();
    addr.update(0x21);
    addr.update(0x08);
    assert_eq!(addr.get(), 0x2108);
}

#[test]
fn address_is_masked_to_fourteen_bits() {
    let mut addr = AddrRegister::new();
    addr.update(0xFF);
    addr.update(0xFF);
    assert_eq!(addr.get(), 0x3FFF);
}

#[test]
fn flip_flop_alternates_on_every_write() {
    let mut addr = AddrRegister::new();
    addr.update(0x21);
    addr.update(0x08);
    addr.update(0x3C);
    assert_eq!(addr.get(), 0x3C08);
}

#[test]
fn reset_latch_forces_next_write_high() {
    let mut addr = AddrRegister::new();
    addr.update(0x21);
    addr.reset_latch();
    addr.update(0x10);
    assert_eq!(addr.get(), 0x1000);
}

#[test]
fn increment_carries_into_high_byte() {
    let mut addr = AddrRegister::new();
    addr.update(0x20);
    addr.update(0xFF);
    addr.increment(1);
    assert_eq!(addr.get(), 0x2100);
}

#[test]
fn increment_wraps_around_the_address_space() {
    let mut addr = AddrRegister::new();
    addr.update(0x3F);
    addr.update(0xFF);
    addr.increment(32);
    assert_eq!(addr.get(), 0x001F);
}

#[test]
fn control_register_selects_the_increment_step() {
    let mut ctrl = ControlRegister::new();
    assert_eq!(ctrl.vram_addr_increment(), 1);
    ctrl.update(0b0000_0100);
    assert_eq!(ctrl.vram_addr_increment(), 32);
    ctrl.update(0b1111_1011);
    assert_eq!(ctrl.vram_addr_increment(), 1);
}

#[test]
fn vertical_mirroring_folds_table_two_onto_zero() {
    let ppu = PPU::new(Vec::new(), Mirroring::Vertical);
    assert_eq!(ppu.mirror_vram_addr(0x2800), ppu.mirror_vram_addr(0x2000));
    assert_eq!(ppu.mirror_vram_addr(0x2800), 0);
    assert_eq!(ppu.mirror_vram_addr(0x2C05), ppu.mirror_vram_addr(0x2405));
    assert_eq!(ppu.mirror_vram_addr(0x2405), 0x405);
}

#[test]
fn horizontal_mirroring_folds_tables_as_documented() {
    let ppu = PPU::new(Vec::new(), Mirroring::Horizontal);
    assert_eq!(ppu.mirror_vram_addr(0x2400), ppu.mirror_vram_addr(0x2000));
    assert_eq!(ppu.mirror_vram_addr(0x2400), 0);
    assert_eq!(ppu.mirror_vram_addr(0x2C00), ppu.mirror_vram_addr(0x2800));
    assert_eq!(ppu.mirror_vram_addr(0x2C00), 0x400);
}

#[test]
fn alias_range_folds_down_before_mirroring() {
    let ppu = PPU::new(Vec::new(), Mirroring::Vertical);
    assert_eq!(ppu.mirror_vram_addr(0x3000), ppu.mirror_vram_addr(0x2000));
    assert_eq!(ppu.mirror_vram_addr(0x3EFF), ppu.mirror_vram_addr(0x2EFF));
}

#[test]
fn four_screen_leaves_all_tables_in_place() {
    let ppu = PPU::new(Vec::new(), Mirroring::FourScreen);
    assert_eq!(ppu.mirror_vram_addr(0x2000), 0);
    assert_eq!(ppu.mirror_vram_addr(0x2400), 0x400);
    assert_eq!(ppu.mirror_vram_addr(0x2800), 0x800);
    assert_eq!(ppu.mirror_vram_addr(0x2FFF), 0xFFF);
}

#[test]
fn first_read_returns_initial_buffer_not_fetched_byte() {
    let mut ppu = PPU::new(vec![0xAB, 0xCD, 0xEF], Mirroring::Vertical);
    ppu.write_to_ppu_addr(0x00);
    ppu.write_to_ppu_addr(0x00);
    assert_eq!(ppu.read_data(), Ok(0));
    assert_eq!(ppu.read_data(), Ok(0xAB));
    assert_eq!(ppu.read_data(), Ok(0xCD));
}

#[test]
fn read_advances_by_thirty_two_when_configured() {
    let mut chr = vec![0u8; 65];
    chr[0] = 1;
    chr[32] = 7;
    let mut ppu = PPU::new(chr, Mirroring::Horizontal);
    ppu.write_to_ctrl(0b0000_0100);
    ppu.write_to_ppu_addr(0x00);
    ppu.write_to_ppu_addr(0x00);
    assert_eq!(ppu.read_data(), Ok(0));
    assert_eq!(ppu.read_data(), Ok(1));
    assert_eq!(ppu.read_data(), Ok(7));
}

#[test]
fn nametable_reads_are_buffered_too() {
    let mut ppu = PPU::new(vec![0x55], Mirroring::Vertical);
    ppu.write_to_ppu_addr(0x00);
    ppu.write_to_ppu_addr(0x00);
    assert_eq!(ppu.read_data(), Ok(0));
    ppu.write_to_ppu_addr(0x20);
    ppu.write_to_ppu_addr(0x00);
    assert_eq!(ppu.read_data(), Ok(0x55));
    assert_eq!(ppu.read_data(), Ok(0));
}

#[test]
fn alias_range_read_is_a_contract_violation() {
    let mut ppu = PPU::new(vec![0u8; 8192], Mirroring::Vertical);
    ppu.write_to_ppu_addr(0x30);
    ppu.write_to_ppu_addr(0x00);
    assert_eq!(ppu.read_data(), Err(PpuError::ContractViolation));
}

#[test]
fn palette_range_read_is_a_contract_violation() {
    let mut ppu = PPU::new(vec![0u8; 8192], Mirroring::Vertical);
    ppu.write_to_ppu_addr(0x3F);
    ppu.write_to_ppu_addr(0x00);
    assert_eq!(ppu.read_data(), Err(PpuError::ContractViolation));
}

#[test]
fn pattern_read_past_character_data_is_a_contract_violation() {
    let mut ppu = PPU::new(Vec::new(), Mirroring::Vertical);
    ppu.write_to_ppu_addr(0x00);
    ppu.write_to_ppu_addr(0x00);
    assert_eq!(ppu.read_data(), Err(PpuError::ContractViolation));
}

#[test]
fn four_screen_upper_table_read_is_a_contract_violation() {
    let mut ppu = PPU::new(Vec::new(), Mirroring::FourScreen);
    ppu.write_to_ppu_addr(0x28);
    ppu.write_to_ppu_addr(0x00);
    assert_eq!(ppu.read_data(), Err(PpuError::ContractViolation));
}

#[test]
fn failed_read_still_advances_the_address() {
    let mut ppu = PPU::new(vec![0x42, 0x99], Mirroring::Vertical);
    ppu.write_to_ppu_addr(0x30);
    ppu.write_to_ppu_addr(0x00);
    assert_eq!(ppu.read_data(), Err(PpuError::ContractViolation));
    // The port advanced past 0x3000 during the failed read; wind it back to
    // pattern space and check normal operation resumes.
    ppu.write_to_ppu_addr(0x00);
    ppu.write_to_ppu_addr(0x00);
    assert_eq!(ppu.read_data(), Ok(0));
    assert_eq!(ppu.read_data(), Ok(0x42));
}
