//! MMC3-class bank-switching cartridge circuit.
//!
//! The circuit multiplexes program storage into four swappable 8KB CPU
//! windows above a persistent-RAM window, multiplexes graphics storage into
//! eight 1KB picture-unit regions, controls nametable mirroring, and raises a
//! CPU interrupt at a configured rendering scanline.

use vstd::prelude::*;

verus! {

/// Size of one switchable program bank (one CPU window).
pub const PRG_BANK_SIZE: usize = 0x2000;

/// Size of one switchable graphics bank (one picture-unit region).
pub const CHR_BANK_SIZE: usize = 0x400;

/// State of the bank-switching circuit: cartridge storage, the eight bank
/// registers with their selector, the two mode bits, the mirroring override
/// and the scanline-interrupt generator.
#[derive(Debug, Clone)]
pub struct Mapper4 {
    pub prg: Vec<u8>,
    pub prg_ram: Vec<u8>,
    pub chr: Vec<u8>,

    pub registers: [u8; 8],
    pub register_to_update: u8,
    pub prg_rom_bank_mode: bool,
    pub chr_inversion: bool,

    pub horizontal_mirroring: bool,
    pub irq_counter: u8,
    pub irq_counter_reload: u8,
    pub irq_enable: bool,
    pub irq_reload: bool,
    pub dirty: bool,
}

impl Mapper4 {
    /// Number of 8KB program banks present on the cartridge.
    pub open spec fn prg_bank_count(&self) -> int {
        self.prg@.len() as int / PRG_BANK_SIZE as int
    }

    /// Number of 1KB graphics banks present on the cartridge.
    pub open spec fn chr_bank_count(&self) -> int {
        self.chr@.len() as int / CHR_BANK_SIZE as int
    }

    /// Well-formed circuit: whole banks of storage, at least the two program
    /// banks needed for the fixed windows, at least one graphics bank, and a
    /// register selector that points at one of the eight bank registers.
    pub open spec fn wf(&self) -> bool {
        &&& self.prg@.len() % (PRG_BANK_SIZE as nat) == 0
        &&& self.prg@.len() >= 2 * PRG_BANK_SIZE
        &&& self.chr@.len() % (CHR_BANK_SIZE as nat) == 0
        &&& self.chr@.len() >= CHR_BANK_SIZE
        &&& self.register_to_update < 8
    }

    /// Which 8KB program bank backs a CPU address in the four ROM windows.
    ///
    /// The window at 0x8000 switches via register 6 while the one at 0xC000
    /// is pinned to the second-last bank; the bank-swap mode bit exchanges
    /// those two roles. The window at 0xA000 switches via register 7 and the
    /// one at 0xE000 is pinned to the last bank. Register values are masked
    /// to six bits and then to the number of banks actually present.
    pub open spec fn spec_prg_bank(&self, addr: u16) -> int
        recommends
            self.wf(),
            0x8000 <= addr,
    {
        let count = self.prg_bank_count();
        if addr < 0xA000 {
            if self.prg_rom_bank_mode {
                count - 2
            } else {
                (self.registers@[6] & 0x3f) as int % count
            }
        } else if addr < 0xC000 {
            (self.registers@[7] & 0x3f) as int % count
        } else if addr < 0xE000 {
            if self.prg_rom_bank_mode {
                (self.registers@[6] & 0x3f) as int % count
            } else {
                count - 2
            }
        } else {
            count - 1
        }
    }

    /// What a CPU read returns: a persistent-RAM byte below 0x8000, and above
    /// it the byte of the backing program bank at the address's offset within
    /// its 8KB window.
    pub open spec fn spec_read(&self, addr: u16) -> u8
        recommends
            self.wf(),
            0x6000 <= addr,
            addr < 0x8000 ==> addr - 0x6000 < self.prg_ram@.len(),
    {
        if addr < 0x8000 {
            self.prg_ram@[addr - 0x6000]
        } else {
            self.prg@[self.spec_prg_bank(addr) * PRG_BANK_SIZE as int + (addr as int) % (
            PRG_BANK_SIZE as int)]
        }
    }

    /// CPU read: persistent RAM at 0x6000, then the four 8KB program windows
    /// up to 0xFFFF. Addresses below 0x6000 are unmapped — a read there means
    /// the bus's address table is incomplete, a fatal condition — and are
    /// excluded outright, as is a RAM read beyond the window actually fitted.
    pub fn read(&mut self, addr: u16) -> (val: u8)
        requires
            old(self).wf(),
            0x6000 <= addr,
            addr < 0x8000 ==> addr - 0x6000 < old(self).prg_ram@.len(),
        ensures
            *final(self) == *old(self),
            val == old(self).spec_read(addr),
    {
        if addr < 0x8000 {
            self.prg_ram[(addr - 0x6000) as usize]
        } else {
            let count: usize = self.prg.len() / PRG_BANK_SIZE;
            proof {
                assert(self.prg@.len() == count * PRG_BANK_SIZE + self.prg@.len() % (
                PRG_BANK_SIZE as nat));
                assert(count >= 2);
            }
            let bank: usize = if addr < 0xA000 {
                if self.prg_rom_bank_mode {
                    count - 2
                } else {
                    ((self.registers[6] & 0x3f) as usize) % count
                }
            } else if addr < 0xC000 {
                ((self.registers[7] & 0x3f) as usize) % count
            } else if addr < 0xE000 {
                if self.prg_rom_bank_mode {
                    ((self.registers[6] & 0x3f) as usize) % count
                } else {
                    count - 2
                }
            } else {
                count - 1
            };
            let offset: usize = (addr as usize) % PRG_BANK_SIZE;
            proof {
                assert(bank < count);
                assert(bank * PRG_BANK_SIZE + offset < count * PRG_BANK_SIZE) by {
                    assert(bank * PRG_BANK_SIZE <= (count - 1) * PRG_BANK_SIZE) by (nonlinear_arith)
                        requires
                            bank <= count - 1,
                    ;
                }
            }
            self.prg[bank * PRG_BANK_SIZE + offset]
        }
    }

    /// CPU write. Below 0x8000 it stores into persistent RAM; above, the
    /// address's window and parity pick the control register: bank select /
    /// bank data at 0x8000, mirroring at 0xA000, interrupt reload value /
    /// reload request at 0xC000, and interrupt disable / enable at 0xE000.
    /// Every write is accepted bit-for-bit — the hardware has no input
    /// validation — and every write marks the circuit dirty. Addresses below
    /// 0x6000 are unmapped and excluded, as is a RAM store beyond the window
    /// actually fitted.
    pub fn write(&mut self, addr: u16, val: u8)
        requires
            old(self).wf(),
            0x6000 <= addr,
            addr < 0x8000 ==> addr - 0x6000 < old(self).prg_ram@.len(),
        ensures
            final(self).wf(),
            final(self).dirty,
            addr < 0x8000 ==> final(self).prg_ram@ == old(self).prg_ram@.update(
                addr - 0x6000,
                val,
            ) && *final(self) == (Mapper4 {
                prg_ram: final(self).prg_ram,
                dirty: true,
                ..*old(self)
            }),
            0x8000 <= addr < 0xA000 && addr % 2 == 0 ==> *final(self) == (Mapper4 {
                register_to_update: val & 7,
                prg_rom_bank_mode: val & 0x40 != 0,
                chr_inversion: val & 0x80 != 0,
                dirty: true,
                ..*old(self)
            }),
            0x8000 <= addr < 0xA000 && addr % 2 == 1 ==> final(self).registers@ == old(
                self,
            ).registers@.update(old(self).register_to_update as int, val) && *final(self)
                == (Mapper4 { registers: final(self).registers, dirty: true, ..*old(self) }),
            0xA000 <= addr < 0xC000 && addr % 2 == 0 ==> *final(self) == (Mapper4 {
                horizontal_mirroring: val != 0,
                dirty: true,
                ..*old(self)
            }),
            0xA000 <= addr < 0xC000 && addr % 2 == 1 ==> *final(self) == (Mapper4 {
                dirty: true,
                ..*old(self)
            }),
            0xC000 <= addr < 0xE000 && addr % 2 == 0 ==> *final(self) == (Mapper4 {
                irq_counter_reload: val,
                dirty: true,
                ..*old(self)
            }),
            0xC000 <= addr < 0xE000 && addr % 2 == 1 ==> *final(self) == (Mapper4 {
                irq_reload: true,
                dirty: true,
                ..*old(self)
            }),
            0xE000 <= addr ==> *final(self) == (Mapper4 {
                irq_enable: addr % 2 == 1,
                dirty: true,
                ..*old(self)
            }),
    {
        if addr < 0x8000 {
            let idx: usize = (addr - 0x6000) as usize;
            self.prg_ram[idx] = val;
        } else if addr < 0xA000 {
            if addr % 2 == 0 {
                // bank select
                proof {
                    assert(val & 7 < 8) by (bit_vector);
                }
                self.register_to_update = val & 7;
                self.prg_rom_bank_mode = val & 0x40 != 0;
                self.chr_inversion = val & 0x80 != 0;
            } else {
                // bank data
                let idx: usize = self.register_to_update as usize;
                self.registers[idx] = val;
            }
        } else if addr < 0xC000 {
            if addr % 2 == 0 {
                // mirroring
                self.horizontal_mirroring = val != 0;
            }
        } else if addr < 0xE000 {
            if addr % 2 == 0 {
                self.irq_counter_reload = val;
            } else {
                self.irq_reload = true;
            }
        } else {
            self.irq_enable = addr % 2 != 0;
        }
        self.dirty = true;
    }

    /// Raw bank register value (with forced bits applied) for a 1KB
    /// picture-unit region.
    ///
    /// With inversion off, the low half of the range forms two 2KB pairs —
    /// registers 0 and 1 with the bank's lowest bit forced to 0 for the first
    /// region of the pair and to 1 for the second — and the high half's four
    /// regions switch independently via registers 2 to 5. Inversion swaps the
    /// roles of the two halves.
    pub open spec fn spec_chr_reg(&self, addr: u16) -> u8
        recommends
            addr < 0x2000,
    {
        if self.chr_inversion {
            if addr < 0x0400 {
                self.registers@[2]
            } else if addr < 0x0800 {
                self.registers@[3]
            } else if addr < 0x0C00 {
                self.registers@[4]
            } else if addr < 0x1000 {
                self.registers@[5]
            } else if addr < 0x1400 {
                self.registers@[0] & 0xfe
            } else if addr < 0x1800 {
                self.registers@[0] | 0x1
            } else if addr < 0x1C00 {
                self.registers@[1] & 0xfe
            } else {
                self.registers@[1] | 0x1
            }
        } else {
            if addr < 0x0400 {
                self.registers@[0] & 0xfe
            } else if addr < 0x0800 {
                self.registers@[0] | 0x1
            } else if addr < 0x0C00 {
                self.registers@[1] & 0xfe
            } else if addr < 0x1000 {
                self.registers@[1] | 0x1
            } else if addr < 0x1400 {
                self.registers@[2]
            } else if addr < 0x1800 {
                self.registers@[3]
            } else if addr < 0x1C00 {
                self.registers@[4]
            } else {
                self.registers@[5]
            }
        }
    }

    /// Which 1KB graphics bank backs a picture-unit address: the register
    /// value of its region, masked to the number of banks actually present.
    pub open spec fn spec_chr_bank(&self, addr: u16) -> int
        recommends
            self.wf(),
            addr < 0x2000,
    {
        self.spec_chr_reg(addr) as int % self.chr_bank_count()
    }

    /// What a picture-unit read returns: the byte of the backing graphics
    /// bank at the address's offset within its 1KB region.
    pub open spec fn spec_read_ppu(&self, addr: u16) -> u8
        recommends
            self.wf(),
            addr < 0x2000,
    {
        self.chr@[self.spec_chr_bank(addr) * CHR_BANK_SIZE as int + (addr as int) % (
        CHR_BANK_SIZE as int)]
    }

    /// Picture-unit read over the pattern range 0x0000–0x1FFF. Anything above
    /// is unmapped — a fatal, incomplete-address-table condition — and
    /// excluded outright.
    pub fn read_ppu(&mut self, addr: u16) -> (val: u8)
        requires
            old(self).wf(),
            addr < 0x2000,
        ensures
            *final(self) == *old(self),
            val == old(self).spec_read_ppu(addr),
    {
        let reg: u8 = if self.chr_inversion {
            if addr < 0x0400 {
                self.registers[2]
            } else if addr < 0x0800 {
                self.registers[3]
            } else if addr < 0x0C00 {
                self.registers[4]
            } else if addr < 0x1000 {
                self.registers[5]
            } else if addr < 0x1400 {
                self.registers[0] & 0xfe
            } else if addr < 0x1800 {
                self.registers[0] | 0x1
            } else if addr < 0x1C00 {
                self.registers[1] & 0xfe
            } else {
                self.registers[1] | 0x1
            }
        } else {
            if addr < 0x0400 {
                self.registers[0] & 0xfe
            } else if addr < 0x0800 {
                self.registers[0] | 0x1
            } else if addr < 0x0C00 {
                self.registers[1] & 0xfe
            } else if addr < 0x1000 {
                self.registers[1] | 0x1
            } else if addr < 0x1400 {
                self.registers[2]
            } else if addr < 0x1800 {
                self.registers[3]
            } else if addr < 0x1C00 {
                self.registers[4]
            } else {
                self.registers[5]
            }
        };
        let count: usize = self.chr.len() / CHR_BANK_SIZE;
        proof {
            assert(self.chr@.len() == count * CHR_BANK_SIZE + self.chr@.len() % (
            CHR_BANK_SIZE as nat));
            assert(count >= 1);
        }
        let bank: usize = (reg as usize) % count;
        let offset: usize = (addr as usize) % CHR_BANK_SIZE;
        proof {
            assert(bank * CHR_BANK_SIZE + offset < count * CHR_BANK_SIZE) by {
                assert(bank * CHR_BANK_SIZE <= (count - 1) * CHR_BANK_SIZE) by (nonlinear_arith)
                    requires
                        bank <= count - 1,
                ;
            }
        }
        self.chr[bank * CHR_BANK_SIZE + offset]
    }

    /// Picture-unit writes land in graphics ROM and are ignored: the circuit
    /// is left exactly as it was.
    pub fn write_ppu(&mut self, addr: u16, val: u8)
        ensures
            *final(self) == *old(self),
    {
    }

    /// Mirroring-mode query: true for horizontal, false for vertical. The
    /// argument is the cartridge's default mirroring bit, which this circuit
    /// overrides outright.
    pub fn horizontal_mirroring(&self, default_mirroring: bool) -> (r: bool)
        ensures
            r == self.horizontal_mirroring,
    {
        self.horizontal_mirroring
    }

    /// Scanline hook, invoked once per rendering scanline while rendering is
    /// enabled. Returns (interrupt requested, registers changed since the
    /// previous call).
    ///
    /// An interrupt is requested exactly when the counter is already zero,
    /// interrupts are enabled, no reload is pending and rendering is active.
    /// Afterwards, if a reload is pending or the counter is zero, the pending
    /// flag clears and the counter reloads from the reload value; otherwise
    /// the counter decrements, floored at zero. The dirty flag is handed out
    /// and cleared.
    pub fn ppu_scanline(&mut self, show_background: bool, show_sprites: bool) -> (r: (bool, bool))
        requires
            old(self).wf(),
        ensures
            final(self).wf(),
            r.0 == (old(self).irq_counter == 0 && old(self).irq_enable && !old(self).irq_reload
                && (show_background || show_sprites)),
            r.1 == old(self).dirty,
            final(self).irq_counter == if old(self).irq_reload || old(self).irq_counter == 0 {
                old(self).irq_counter_reload
            } else {
                (old(self).irq_counter - 1) as u8
            },
            !final(self).irq_reload,
            !final(self).dirty,
            *final(self) == (Mapper4 {
                irq_counter: final(self).irq_counter,
                irq_reload: false,
                dirty: false,
                ..*old(self)
            }),
    {
        let irq = self.irq_counter == 0 && self.irq_enable && !self.irq_reload && (show_background
            || show_sprites);

        if self.irq_reload || self.irq_counter == 0 {
            self.irq_reload = false;
            self.irq_counter = self.irq_counter_reload;
        } else {
            self.irq_counter = self.irq_counter - 1;
        }

        let changed = self.dirty;
        self.dirty = false;
        (irq, changed)
    }

    /// Construct the circuit as it powers up: all bank registers zero, both
    /// mode bits off, horizontal mirroring, interrupts disabled, and a zeroed
    /// persistent-RAM window of the requested size.
    pub fn new(prg: Vec<u8>, prg_ram_size: usize, chr: Vec<u8>) -> (m: Mapper4)
        ensures
            m.prg == prg,
            m.prg_ram@ == Seq::new(prg_ram_size as nat, |i: int| 0u8),
            m.chr == chr,
            m.registers@ == Seq::new(8, |i: int| 0u8),
            m.register_to_update == 0,
            !m.prg_rom_bank_mode,
            !m.chr_inversion,
            m.horizontal_mirroring,
            m.irq_counter == 0,
            m.irq_counter_reload == 0,
            !m.irq_enable,
            !m.irq_reload,
            !m.dirty,
    {
        let mut prg_ram: Vec<u8> = Vec::new();
        let mut i: usize = 0;
        while i < prg_ram_size
            invariant
                i <= prg_ram_size,
                prg_ram@ == Seq::new(i as nat, |j: int| 0u8),
            decreases prg_ram_size - i,
        {
            prg_ram.push(0);
            proof {
                assert(prg_ram@ =~= Seq::new((i + 1) as nat, |j: int| 0u8));
            }
            i = i + 1;
        }
        let registers: [u8; 8] = [0, 0, 0, 0, 0, 0, 0, 0];
        proof {
            assert(registers@ =~= Seq::new(8, |i: int| 0u8));
        }
        Mapper4 {
            prg,
            prg_ram,
            chr,

            registers,
            register_to_update: 0,
            prg_rom_bank_mode: false,
            chr_inversion: false,

            horizontal_mirroring: true,
            irq_counter: 0,
            irq_counter_reload: 0,
            irq_enable: false,
            irq_reload: false,
            dirty: false,
        }
    }
}

/// Law: a read in the program-ROM windows is fully determined by the program
/// image, the bank-swap mode bit and the bank registers; no other circuit
/// state plays a part.
pub proof fn lemma_prg_read_determined(m1: Mapper4, m2: Mapper4, addr: u16)
    requires
        m1.wf(),
        m2.wf(),
        m1.prg == m2.prg,
        m1.registers@ == m2.registers@,
        m1.prg_rom_bank_mode == m2.prg_rom_bank_mode,
        0x8000 <= addr,
    ensures
        m1.spec_read(addr) == m2.spec_read(addr),
{
}

/// Law: toggling the bank-swap mode bit exchanges exactly the two
/// role-swapping windows — a read at 0x8000+off under one mode returns the
/// byte a read at 0xC000+off returns under the other — and leaves the
/// persistent-RAM window, the register-7 window and the fixed last-bank
/// window unchanged.
pub proof fn lemma_swap_mode_toggles_windows(m1: Mapper4, m2: Mapper4, addr: u16)
    requires
        m1.wf(),
        m2.wf(),
        m2.prg == m1.prg,
        m2.prg_ram == m1.prg_ram,
        m2.registers@ == m1.registers@,
        m2.prg_rom_bank_mode == !m1.prg_rom_bank_mode,
        0x6000 <= addr,
    ensures
        0x8000 <= addr < 0xA000 ==> m2.spec_read(addr) == m1.spec_read((addr + 0x4000) as u16),
        0xC000 <= addr < 0xE000 ==> m2.spec_read(addr) == m1.spec_read((addr - 0x4000) as u16),
        addr < 0x8000 ==> m2.spec_read(addr) == m1.spec_read(addr),
        0xA000 <= addr < 0xC000 ==> m2.spec_read(addr) == m1.spec_read(addr),
        0xE000 <= addr ==> m2.spec_read(addr) == m1.spec_read(addr),
{
    if 0x8000 <= addr && addr < 0xA000 {
        vstd::arithmetic::div_mod::lemma_mod_multiples_vanish(2, addr as int, 0x2000);
        assert((addr + 0x4000) % 0x2000 == addr as int % 0x2000);
    }
    if 0xC000 <= addr && addr < 0xE000 {
        vstd::arithmetic::div_mod::lemma_mod_multiples_vanish(2, addr - 0x4000, 0x2000);
        assert((addr - 0x4000) % 0x2000 == addr as int % 0x2000);
    }
}

/// Law: in each 2KB pair of picture-unit regions, the two regions 0x400
/// apart read the same bank register, with the bank's lowest bit forced to 0
/// in the first region and to 1 in the second — so their banks differ in
/// that bit alone. The requires names the first region of each pair for the
/// chosen inversion state.
pub proof fn lemma_chr_forced_bit_pairing(m: Mapper4, addr: u16)
    requires
        m.chr_inversion ==> (0x1000 <= addr < 0x1400 || 0x1800 <= addr < 0x1C00),
        !m.chr_inversion ==> (addr < 0x0400 || 0x0800 <= addr < 0x0C00),
    ensures
        m.spec_chr_reg(addr) & 1 == 0,
        m.spec_chr_reg((addr + 0x400) as u16) & 1 == 1,
        m.spec_chr_reg((addr + 0x400) as u16) & 0xfe == m.spec_chr_reg(addr) & 0xfe,
        m.spec_chr_reg((addr + 0x400) as u16) == (m.spec_chr_reg(addr) | 1),
{
    let r: u8 = if m.chr_inversion {
        if addr < 0x1400 {
            m.registers@[0]
        } else {
            m.registers@[1]
        }
    } else {
        if addr < 0x0400 {
            m.registers@[0]
        } else {
            m.registers@[1]
        }
    };
    assert(m.spec_chr_reg(addr) == r & 0xfe);
    assert(m.spec_chr_reg((addr + 0x400) as u16) == r | 1);
    assert((r & 0xfe) & 1 == 0) by (bit_vector);
    assert((r | 1) & 1 == 1) by (bit_vector);
    assert((r | 1) & 0xfe == (r & 0xfe) & 0xfe) by (bit_vector);
    assert((r | 1) == ((r & 0xfe) | 1)) by (bit_vector);
}

} // verus!
