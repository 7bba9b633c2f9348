use lib::nes::cartridge::rom::Mirroring;
use lib::nes::ppu::PPU;

fn create_empty_ppu() -> PPU {
    PPU::new()
}

#[test]
fn test_palette_addr_mirroring() {
    let ppu = create_empty_ppu();
    for addr in 0x3F00..=0x3FFF {
        let mirrored = ppu.mirror_palette_addr(addr);
        assert!(mirrored < 0x20, "Address ${:04X} mapped outside palette range: ${:02X}", addr, mirrored);
    }
    assert_eq!(ppu.mirror_palette_addr(0x3F10), 0x00);
    assert_eq!(ppu.mirror_palette_addr(0x3F14), 0x04);
    assert_eq!(ppu.mirror_palette_addr(0x3F18), 0x08);
    assert_eq!(ppu.mirror_palette_addr(0x3F1C), 0x0C);
}

#[test]
fn test_ppu_palette_wrap_full_range() {
    let ppu = create_empty_ppu();
    for addr in 0x3F00..=0x3FFF {
        let mirrored = ppu.mirror_palette_addr(addr);
        let folded_index = (addr - 0x3F00) & 0x1F;
        let expected = if folded_index >= 0x10 && (folded_index & 0x03) == 0 {
            folded_index - 0x10
        } else {
            folded_index
        };
        assert_eq!(mirrored as u16, expected);
    }
}

#[test]
fn test_ppu_palette_wrap_full_range2() {
    let ppu = create_empty_ppu();
    for addr in 0x3F00..=0x3FFF {
        let mirrored = ppu.mirror_palette_addr(addr);
        let base_index = (addr - 0x3F00) & 0x1F;
        let expected = match base_index {
            0x10 => 0x00,
            0x14 => 0x04,
            0x18 => 0x08,
            0x1C => 0x0C,
            _ => base_index,
        } as usize;
        assert_eq!(mirrored, expected);
    }
}

#[test]
fn test_ppu_palette_wrap_and_specials() {
    let ppu = create_empty_ppu();
    for raw_index in 0..32usize {
        let expected = if raw_index >= 0x10 && (raw_index & 0x03) == 0 {
            raw_index - 0x10
        } else {
            raw_index
        };
        for k in 0..8usize {
            let addr = 0x3F00u16.wrapping_add((raw_index as u16) + (k as u16 * 0x20));
            let idx = ppu.mirror_palette_addr(addr);
            assert_eq!(idx, expected);
        }
    }
}

#[test]
fn nametable_mirroring_vertical_and_horizontal() {
    let mut ppu = create_empty_ppu();
    assert_eq!(ppu.mirror_ram_addr(0x2000), 0x000);
    assert_eq!(ppu.mirror_ram_addr(0x2400), 0x400);
    assert_eq!(ppu.mirror_ram_addr(0x2800), 0x000);
    assert_eq!(ppu.mirror_ram_addr(0x2C05), 0x405);
    ppu.mirroring = Mirroring::Horizontal;
    assert_eq!(ppu.mirror_ram_addr(0x2400), 0x000);
    assert_eq!(ppu.mirror_ram_addr(0x2800), 0x400);
    assert_eq!(ppu.mirror_ram_addr(0x3C05), 0x405);
    ppu.mirroring = Mirroring::Single1;
    assert_eq!(ppu.mirror_ram_addr(0x2000), 0x400);
}

#[test]
fn oam_data_write_advances_address() {
    let mut ppu = create_empty_ppu();
    ppu.oam_addr = 0xFF;
    ppu.write_to_oam_data(0x42);
    assert_eq!(ppu.oam_data[0xFF], 0x42);
    assert_eq!(ppu.oam_addr, 0);
}

#[test]
fn run_until_vblank_stops_at_line_241() {
    let mut ppu = create_empty_ppu();
    ppu.run_until_vblank();
    assert!(ppu.status_register.is_in_vblank());
    assert_eq!(ppu.scanline, 241);
    assert_eq!(ppu.cycles, 2);
    ppu.run_until_vblank();
    assert_eq!(ppu.scanline, 241);
    assert_eq!(ppu.cycles, 2);
}

#[test]
fn ppu_tick_clears_vblank_on_prerender_line() {
    let mut ppu = create_empty_ppu();
    ppu.run_until_vblank();
    let mut ticks = 0;
    while ppu.status_register.is_in_vblank() {
        ppu.tick();
        ticks += 1;
    }
    assert_eq!(ppu.scanline, 261);
    assert_eq!(ppu.cycles, 2);
    assert_eq!(ticks, 20 * 341);
}

#[test]
fn tick_reports_frame_completion_on_wrap() {
    let mut ppu = create_empty_ppu();
    ppu.scanline = 261;
    ppu.cycles = 339;
    assert!(!ppu.tick());
    assert!(ppu.tick());
    assert_eq!((ppu.scanline, ppu.cycles), (0, 0));
    assert!(!ppu.tick());
    assert_eq!((ppu.scanline, ppu.cycles), (0, 1));
}

#[test]
fn odd_frame_with_rendering_skips_a_dot() {
    let mut ppu = create_empty_ppu();
    ppu.mask_register.update(0b0001_1000);
    ppu.frame_is_odd = true;
    ppu.scanline = 261;
    ppu.cycles = 1;
    ppu.tick();
    assert!(ppu.prerender_rendering_enabled);
    ppu.cycles = 339;
    assert!(ppu.tick());
    assert_eq!((ppu.scanline, ppu.cycles), (0, 0));
    assert!(!ppu.frame_is_odd);
}

#[test]
fn nmi_raised_at_vblank_start_when_enabled() {
    let mut ppu = create_empty_ppu();
    ppu.write_to_ctrl(0x80);
    ppu.scanline = 241;
    ppu.cycles = 1;
    ppu.tick();
    assert!(ppu.nmi_raised);
    assert!(ppu.status_register.is_in_vblank());
}

#[test]
fn status_read_just_before_vblank_suppresses_it() {
    let mut ppu = create_empty_ppu();
    ppu.write_to_ctrl(0x80);
    ppu.scanline = 241;
    ppu.cycles = 0;
    ppu.read_register(0x2002);
    assert!(ppu.suppress_vblank);
    ppu.tick();
    ppu.tick();
    assert!(!ppu.status_register.is_in_vblank());
    assert!(!ppu.nmi_raised);
}

#[test]
fn enabling_nmi_inside_vblank_owes_one() {
    let mut ppu = create_empty_ppu();
    ppu.scanline = 250;
    ppu.cycles = 10;
    ppu.write_to_ctrl(0x80);
    assert!(ppu.instant_nmi_pending);
    ppu.tick();
    assert!(ppu.nmi_raised);
    assert!(!ppu.instant_nmi_pending);
}

#[test]
fn startup_palette_and_scroll_writes() {
    let mut ppu = create_empty_ppu();
    assert_eq!(ppu.palette_table[0], 0x09);
    assert_eq!(ppu.palette_table[31], 0x08);
    ppu.write_register(0x2005, 0b0111_1101);
    assert_eq!(ppu.scroll_register.x, 0b101);
    assert_eq!(ppu.scroll_register.t, 0b01111);
    assert!(ppu.scroll_register.w);
    ppu.write_register(0x2005, 0b0101_1110);
    assert!(!ppu.scroll_register.w);
    assert_eq!(ppu.scroll_register.t, 0b01111 | (0b01011 << 5) | (0b110 << 12));
}

#[test]
fn vram_byte_written_through_2007_reads_back() {
    let mut ppu = create_empty_ppu();
    ppu.write_register(0x2006, 0x21);
    ppu.write_register(0x2006, 0x08);
    ppu.write_register(0x2007, 0x66);
    ppu.write_register(0x2006, 0x21);
    ppu.write_register(0x2006, 0x08);
    let _buffered = ppu.read_register(0x2007);
    assert_eq!(ppu.internal_data, 0x66);
    ppu.write_register(0x2006, 0x3F);
    ppu.write_register(0x2006, 0x05);
    ppu.write_register(0x2007, 0x2A);
    ppu.write_register(0x2006, 0x3F);
    ppu.write_register(0x2006, 0x05);
    assert_eq!(ppu.read_register(0x2007), 0x2A);
}

#[test]
fn new_ppu_has_a_blank_picture() {
    let ppu = create_empty_ppu();
    assert_eq!(ppu.frame_buffer.len(), 256 * 240);
    assert!(ppu.frame_buffer.iter().all(|&b| b == 0));
}

#[test]
fn read_memory_without_increment_keeps_the_address() {
    let mut ppu = create_empty_ppu();
    ppu.write_register(0x2006, 0x23);
    ppu.write_register(0x2006, 0x10);
    ppu.write_register(0x2007, 0x5C);
    ppu.write_register(0x2006, 0x23);
    ppu.write_register(0x2006, 0x10);
    let _buffered = ppu.read_memory(false);
    assert_eq!(ppu.scroll_register.v, 0x2310);
    assert_eq!(ppu.read_memory(true), 0x5C);
    assert_eq!(ppu.scroll_register.v, 0x2311);
}

#[test]
fn reset_returns_to_power_up_state() {
    let mut ppu = create_empty_ppu();
    ppu.write_register(0x2000, 0x80);
    ppu.write_register(0x2001, 0x1E);
    ppu.write_register(0x2003, 0x10);
    ppu.write_register(0x2004, 0x77);
    ppu.write_register(0x2006, 0x3F);
    ppu.write_register(0x2006, 0x00);
    ppu.write_register(0x2007, 0x21);
    for _ in 0..1000 {
        ppu.tick();
    }
    ppu.reset();
    assert_eq!(ppu.cycles, 0);
    assert_eq!(ppu.scanline, 261);
    assert_eq!(ppu.ctrl_register.bits, 0);
    assert_eq!(ppu.mask_register.bits, 0);
    assert_eq!(ppu.oam_addr, 0);
    assert!(ppu.oam_data.iter().all(|&b| b == 0));
    assert_eq!(ppu.palette_table[0], 0x09);
    assert_eq!(ppu.palette_table[31], 0x08);
    assert_eq!(ppu.scroll_register.v, 0);
    assert!(ppu.frame_buffer.iter().all(|&b| b == 0));
}

#[test]
fn test_palette_read_write_symmetry() {
    let mut ppu = create_empty_ppu();

    for addr in 0x3F00..=0x3FFF {
        let expected = (addr & 0x3F) as u8;

        // directly set vram address
        ppu.scroll_register.v = addr;
        ppu.write_memory(expected);

        // read back from same addr
        ppu.scroll_register.v = addr;
        let value = ppu.read_memory(false);

        // Palette reads mask out upper bits (open bus),
        // so compare only the lower 6 bits.
        assert_eq!(
            value & 0x3F,
            expected & 0x3F,
            "Mismatch at ${:04X}: wrote {:02X}, read {:02X}",
            addr,
            expected,
            value
        );
    }
}

#[test]
fn test_ppu_palette_write_read_consistency() {
    let mut ppu = create_empty_ppu();

    // Write each palette index and check reads
    for addr in 0x3F00..=0x3FFF {
        let value = (addr & 0xFF) as u8;
        ppu.scroll_register.v = addr; // set address directly
        ppu.write_memory(value);

        // Read back immediately
        ppu.scroll_register.v = addr;
        let read_value = ppu.read_memory(false);

        let mirrored = ppu.mirror_palette_addr(addr);
        assert_eq!(
            read_value, ppu.palette_table[mirrored],
            "Palette read mismatch at ${:04X}",
            addr
        );
    }
}
