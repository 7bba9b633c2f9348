use lib::cartridge::Cartridge;
use lib::nes::cartridge::mapper001_mmc1::Mmc1;
use lib::nes::cartridge::mapper003_cn_rom::Mapper003CnRom;
use lib::nes::cartridge::rom::Mirroring;

fn banked(banks: usize, size: usize) -> Vec<u8> {
    let mut v = Vec::new();
    for b in 0..banks {
        for _ in 0..size {
            v.push(b as u8);
        }
    }
    v
}

fn serial_write(m: &mut Mmc1, addr: u16, value: u8) {
    for i in 0..5 {
        m.prg_write(addr, (value >> i) & 1);
    }
}

#[test]
fn mmc1_starts_with_last_bank_fixed() {
    let mut m = Mmc1::new(banked(4, 0x4000), banked(2, 0x1000), 0x2000);
    assert_eq!(m.prg_read(0x8000), 0);
    assert_eq!(m.prg_read(0xC000), 3);
}

#[test]
fn mmc1_serial_port_loads_prg_bank() {
    let mut m = Mmc1::new(banked(4, 0x4000), banked(2, 0x1000), 0x2000);
    serial_write(&mut m, 0xE000, 2);
    assert_eq!(m.regs.prg_bank, 2);
    assert_eq!(m.prg_read(0x8000), 2);
    assert_eq!(m.prg_read(0xFFFF), 3);
}

#[test]
fn mmc1_control_sets_mirroring_and_reset_bit() {
    let mut m = Mmc1::new(banked(2, 0x4000), vec![], 0);
    serial_write(&mut m, 0x8000, 0b0_0011);
    assert_eq!(m.mirroring(), Mirroring::Horizontal);
    m.prg_write(0x8000, 1);
    m.prg_write(0x8000, 0x80);
    assert_eq!(m.regs.shift_count, 0);
    assert_eq!(m.regs.shift_reg, 0x10);
    assert_eq!(m.regs.control & 0x0C, 0x0C);
}

#[test]
fn mmc1_chr_ram_and_prg_ram() {
    let mut m = Mmc1::new(banked(2, 0x4000), vec![], 0x2000);
    m.chr_write(0x0010, 0x5A);
    assert_eq!(m.chr_ram[0x10], 0x5A);
    m.prg_write(0x6001, 0x33);
    assert_eq!(m.prg_ram[1], 0x33);
}

#[test]
fn cnrom_switches_chr_bank() {
    let mut c = Mapper003CnRom::new(banked(2, 0x4000), banked(4, 0x2000), Mirroring::Vertical);
    assert_eq!(c.chr_read(0x0000), 0);
    c.prg_write(0x8000, 0b1111_0010);
    assert_eq!(c.bank_select, 2);
    assert_eq!(c.chr_read(0x1FFF), 2);
    assert_eq!(c.chr_read(0x2000), 0);
    assert_eq!(c.prg_read(0xC000), 1);
    assert_eq!(c.prg_read(0x1000), 0);
    assert_eq!(c.prg_bank_count(), 2);
    assert_eq!(c.chr_bank_count(), 4);
}

#[test]
fn cnrom_small_chr_takes_writes() {
    let mut c = Mapper003CnRom::new(banked(1, 0x4000), vec![0; 16], Mirroring::Horizontal);
    c.chr_write(0x2003, 7);
    assert_eq!(c.chr[3], 7);
    let mut full = Mapper003CnRom::new(banked(1, 0x4000), banked(1, 0x2000), Mirroring::Horizontal);
    full.chr_write(0x0003, 7);
    assert_eq!(full.chr[3], 0);
}

#[test]
fn error_messages() {
    use_messages();
}

fn use_messages() {
    assert_eq!(lib::nes::cpu::CpuError::InvalidNMI.message(), "Invalid NMI encountered");
    assert_eq!(lib::error::EmulatorErrorType::AudioInitFailed.message(), "Audio initialization failed!");
}

#[test]
fn cnrom_chr_ram_fallback_reads_back_writes() {
    let mut c = Mapper003CnRom::new(vec![0; 0x4000], vec![], Mirroring::Horizontal);
    assert!(c.chr_is_ram);
    c.chr_write(0x0123, 0x5A);
    assert_eq!(c.chr[0x0123], 0x5A);
    assert_eq!(c.chr_read(0x0123), 0x5A);
}

#[test]
fn mmc1_chr_ram_reads_back_writes() {
    let mut m = Mmc1::new(vec![0; 0x8000], vec![], 0);
    m.chr_write(0x0010, 0xAB);
    assert_eq!(m.chr_read(0x0010), 0xAB);
}
