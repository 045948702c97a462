use nes_core::mapper_4::Mapper4;

/// A program image of `banks` 8KB banks, each filled with its own index.
fn prg_image(banks: usize) -> Vec<u8> {
    let mut v = Vec::new();
    for b in 0..banks {
        for _ in 0..0x2000 {
            v.push(b as u8);
        }
    }
    v
}

/// A graphics image of `banks` 1KB banks, each filled with its own index.
fn chr_image(banks: usize) -> Vec<u8> {
    let mut v = Vec::new();
    for b in 0..banks {
        for _ in 0..0x400 {
            v.push(b as u8);
        }
    }
    v
}

fn mapper(prg_banks: usize, chr_banks: usize) -> Mapper4 {
    Mapper4::new(prg_image(prg_banks), 0x2000, chr_image(chr_banks))
}

#[test]
fn bank_select_swap_mode_scenario() {
    // 16 program banks; select register 6 with swap mode on and inversion
    // off, then point it at bank 2: the window that becomes
    // fixed-to-register-6 under swap mode is 0xC000.
    let mut m = mapper(16, 8);
    m.write(0x8000, 0b0100_0110);
    m.write(0x8001, 2);
    assert_eq!(m.read(0xC000), 2);
    // Under swap mode the 0x8000 window is pinned to the second-last bank.
    assert_eq!(m.read(0x8000), 14);
}

#[test]
fn prg_windows_follow_registers_and_fixed_banks() {
    let mut m = mapper(16, 8);
    // register 6 -> bank 3, register 7 -> bank 5, swap mode off
    m.write(0x8000, 6);
    m.write(0x8001, 3);
    m.write(0x8000, 7);
    m.write(0x8001, 5);
    assert_eq!(m.read(0x8000), 3);
    assert_eq!(m.read(0x9FFF), 3);
    assert_eq!(m.read(0xA000), 5);
    assert_eq!(m.read(0xBFFF), 5);
    assert_eq!(m.read(0xC000), 14); // second-last bank
    assert_eq!(m.read(0xE000), 15); // last bank
    assert_eq!(m.read(0xFFFF), 15);
}

#[test]
fn prg_swap_mode_swaps_exactly_two_windows() {
    let mut m = mapper(16, 8);
    m.write(0x8000, 6);
    m.write(0x8001, 3);
    m.write(0x8000, 7);
    m.write(0x8001, 5);
    let before = [m.read(0x8000), m.read(0xA000), m.read(0xC000), m.read(0xE000)];
    // Turn swap mode on (bit 6); register values stay as they were.
    m.write(0x8000, 0b0100_0000);
    let after = [m.read(0x8000), m.read(0xA000), m.read(0xC000), m.read(0xE000)];
    // The two role-swapping windows exchange their bytes...
    assert_eq!(after[0], before[2]);
    assert_eq!(after[2], before[0]);
    // ...and the register-7 window and the fixed last-bank window hold still.
    assert_eq!(after[1], before[1]);
    assert_eq!(after[3], before[3]);
}

#[test]
fn prg_register_masked_to_bank_count() {
    // 4 banks only: a register value of 6 (within the 6-bit mask) must wrap
    // to the banks actually present, 6 % 4 == 2.
    let mut m = mapper(4, 8);
    m.write(0x8000, 6);
    m.write(0x8001, 6);
    assert_eq!(m.read(0x8000), 2);
}

#[test]
fn chr_register_masked_to_bank_count() {
    // 2 graphics banks; register 2 set to 5 wraps to bank 5 % 2 == 1.
    let mut m = mapper(2, 2);
    m.write(0x8000, 2);
    m.write(0x8001, 5);
    assert_eq!(m.read_ppu(0x1000), 1);
}

#[test]
fn persistent_ram_window_reads_back() {
    let mut m = mapper(2, 1);
    assert_eq!(m.read(0x6000), 0);
    m.write(0x6000, 0xAB);
    m.write(0x7FFF, 0xCD);
    assert_eq!(m.read(0x6000), 0xAB);
    assert_eq!(m.read(0x7FFF), 0xCD);
}

#[test]
fn chr_pairing_inversion_off() {
    let mut m = mapper(2, 8);
    // registers 0..=5 := 4, 2, 6, 7, 1, 0
    let values = [4u8, 2, 6, 7, 1, 0];
    for (i, v) in values.iter().enumerate() {
        m.write(0x8000, i as u8);
        m.write(0x8001, *v);
    }
    // Low half: two 2KB pairs with the bank's low bit forced.
    assert_eq!(m.read_ppu(0x0000), 4); // register 0 & 0xFE
    assert_eq!(m.read_ppu(0x0400), 5); // register 0 | 1
    assert_eq!(m.read_ppu(0x0800), 2); // register 1 & 0xFE
    assert_eq!(m.read_ppu(0x0C00), 3); // register 1 | 1
    // High half: four independent 1KB regions.
    assert_eq!(m.read_ppu(0x1000), 6);
    assert_eq!(m.read_ppu(0x1400), 7);
    assert_eq!(m.read_ppu(0x1800), 1);
    assert_eq!(m.read_ppu(0x1FFF), 0);
}

#[test]
fn chr_pairing_inversion_on() {
    let mut m = mapper(2, 8);
    let values = [4u8, 2, 6, 7, 1, 0];
    for (i, v) in values.iter().enumerate() {
        // bit 7 keeps inversion on while selecting each register
        m.write(0x8000, 0b1000_0000 | i as u8);
        m.write(0x8001, *v);
    }
    // Inversion swaps the halves: independent regions first...
    assert_eq!(m.read_ppu(0x0000), 6);
    assert_eq!(m.read_ppu(0x0400), 7);
    assert_eq!(m.read_ppu(0x0800), 1);
    assert_eq!(m.read_ppu(0x0C00), 0);
    // ...then the two forced-bit pairs.
    assert_eq!(m.read_ppu(0x1000), 4);
    assert_eq!(m.read_ppu(0x1400), 5);
    assert_eq!(m.read_ppu(0x1800), 2);
    assert_eq!(m.read_ppu(0x1C00), 3);
}

#[test]
fn chr_forced_bit_register_is_odd_pair() {
    // An odd register value in a paired region: the pair still reads
    // bank (value & 0xFE) then (value | 1), i.e. 4 then 5 for value 5.
    let mut m = mapper(2, 8);
    m.write(0x8000, 0);
    m.write(0x8001, 5);
    assert_eq!(m.read_ppu(0x0000), 4);
    assert_eq!(m.read_ppu(0x0400), 5);
}

#[test]
fn scanline_interrupt_fires_and_reloads() {
    let mut m = mapper(2, 1);
    // reload value 0, request a reload, enable interrupts
    m.write(0xC000, 0);
    m.write(0xC001, 0);
    m.write(0xE001, 0);
    // A pending reload suppresses the interrupt and consumes the reload.
    let (irq, changed) = m.ppu_scanline(true, false);
    assert!(!irq);
    assert!(changed);
    // Counter is zero, enabled, nothing pending: exactly this call signals.
    let (irq, changed) = m.ppu_scanline(true, false);
    assert!(irq);
    assert!(!changed);
}

#[test]
fn scanline_interrupt_requires_rendering() {
    let mut m = mapper(2, 1);
    m.write(0xC000, 0);
    m.write(0xC001, 0);
    m.write(0xE001, 0);
    m.ppu_scanline(true, true);
    // Rendering disabled: no interrupt even though the counter is due.
    let (irq, _) = m.ppu_scanline(false, false);
    assert!(!irq);
    // Sprites alone count as rendering.
    let (irq, _) = m.ppu_scanline(false, true);
    assert!(irq);
}

#[test]
fn scanline_counter_counts_down_from_reload() {
    let mut m = mapper(2, 1);
    m.write(0xC000, 3);
    m.write(0xC001, 0);
    m.write(0xE001, 0);
    let (irq, _) = m.ppu_scanline(true, true); // reload: counter = 3
    assert!(!irq);
    let (irq, _) = m.ppu_scanline(true, true); // counter 3 -> 2
    assert!(!irq);
    let (irq, _) = m.ppu_scanline(true, true); // counter 2 -> 1
    assert!(!irq);
    let (irq, _) = m.ppu_scanline(true, true); // counter 1 -> 0
    assert!(!irq);
    let (irq, _) = m.ppu_scanline(true, true); // counter 0: signal, reload
    assert!(irq);
}

#[test]
fn interrupt_disable_by_even_address() {
    let mut m = mapper(2, 1);
    m.write(0xC000, 0);
    m.write(0xC001, 0);
    m.write(0xE001, 0);
    m.ppu_scanline(true, true);
    // Disabling via an even address in the enable window stops the signal.
    m.write(0xE000, 0);
    let (irq, _) = m.ppu_scanline(true, true);
    assert!(!irq);
}

#[test]
fn mirroring_write_even_address() {
    let mut m = mapper(2, 1);
    assert!(m.horizontal_mirroring(false));
    m.write(0xA000, 0);
    assert!(!m.horizontal_mirroring(true));
    m.write(0xA000, 1);
    assert!(m.horizontal_mirroring(false));
    // An odd address in the mirroring window changes nothing.
    m.write(0xA001, 0);
    assert!(m.horizontal_mirroring(false));
}

#[test]
fn dirty_flag_reported_once() {
    let mut m = mapper(2, 1);
    let (_, changed) = m.ppu_scanline(true, true);
    assert!(!changed);
    m.write(0xA000, 1);
    let (_, changed) = m.ppu_scanline(true, true);
    assert!(changed);
    let (_, changed) = m.ppu_scanline(true, true);
    assert!(!changed);
}

#[test]
fn ppu_write_is_ignored() {
    let mut m = mapper(2, 2);
    let before = m.read_ppu(0x0000);
    m.write_ppu(0x0000, 0xFF);
    assert_eq!(m.read_ppu(0x0000), before);
}
