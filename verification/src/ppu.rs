//! Picture-unit address/register engine: the latched 16-bit address port,
//! the control register, the VRAM-address mirroring fold and the buffered
//! data-read path, over the video memory the cartridge configures.

use vstd::prelude::*;

use crate::cartridge::Mirroring;

verus! {

/// Combined 16-bit value of the two address-port halves.
pub open spec fn combine(hi: u8, lo: u8) -> u16 {
    ((hi as u16) << 8) | (lo as u16)
}

/// Value of the address port after one single-byte write: the byte lands in
/// the half the flip-flop points at, and the result is masked to 14 bits.
pub open spec fn spec_update(v: u16, awaiting_high: bool, data: u8) -> u16 {
    if awaiting_high {
        ((data * 256 + v % 256) % 0x4000) as u16
    } else {
        ((v / 256 * 256 + data) % 0x4000) as u16
    }
}

/// Value of the address port after an increment: a plain addition, wrapped
/// and masked into the 14-bit address space.
pub open spec fn spec_increment(v: u16, step: u8) -> u16 {
    ((v + step) % 0x4000) as u16
}

/// The two low-half writes of `update` agree with `spec_update` once the
/// 14-bit mask has been applied.
proof fn lemma_update_effect(h: u8, l: u8, d: u8)
    by (bit_vector)
    ensures
        ({
            let c = combine(d, l);
            (if c > 0x3FFF { c & 0x3FFF } else { c }) == spec_update(combine(h, l), true, d)
        }),
        ({
            let c = combine(h, d);
            (if c > 0x3FFF { c & 0x3FFF } else { c }) == spec_update(combine(h, l), false, d)
        }),
{
}

/// Low-byte add with carry-on-wraparound, then the 14-bit mask, equals a
/// plain 16-bit addition reduced modulo the address-space size.
proof fn lemma_increment_effect(h: u8, l: u8, step: u8, h2: u8, l2: u8)
    by (bit_vector)
    requires
        l2 == (if l + step > 255 { (l + step - 256) as u8 } else { (l + step) as u8 }),
        h2 == (if l > l2 { (if h + 1 > 255 { (h + 1 - 256) as u8 } else { (h + 1) as u8 }) } else { h }),
    ensures
        ({
            let c = combine(h2, l2);
            (if c > 0x3FFF { c & 0x3FFF } else { c }) == spec_increment(combine(h, l), step)
        }),
{
}

/// Splitting a 16-bit value into its bytes and recombining them is the identity.
proof fn lemma_split_combine(data: u16)
    by (bit_vector)
    ensures
        combine((data >> 8) as u8, (data & 0xFF) as u8) == data,
{
}

/// The latched address port: a 16-bit address built from two sequential
/// single-byte writes over an 8-bit bus, with a flip-flop tracking which
/// half the next write fills. The externally visible value is always masked
/// to 14 bits.
pub struct AddrRegister {
    hi: u8,
    lo: u8,
    high_ptr: bool,
}

impl AddrRegister {
    /// The current combined 16-bit value.
    pub closed spec fn spec_get(&self) -> u16 {
        combine(self.hi, self.lo)
    }

    /// Whether the next single-byte write fills the high half.
    pub closed spec fn awaiting_high(&self) -> bool {
        self.high_ptr
    }

    /// The externally visible value fits the 14-bit address space.
    pub open spec fn wf(&self) -> bool {
        self.spec_get() <= 0x3FFF
    }

    /// A fresh port: address zero, next write targets the high byte.
    pub fn new() -> (r: AddrRegister)
        ensures
            r.spec_get() == 0,
            r.awaiting_high(),
            r.wf(),
    {
        proof {
            assert(combine(0u8, 0u8) == 0u16) by (bit_vector);
        }
        AddrRegister { hi: 0, lo: 0, high_ptr: true }
    }

    /// Overwrites the whole 16-bit value without touching the flip-flop.
    fn set(&mut self, data: u16)
        ensures
            final(self).spec_get() == data,
            final(self).awaiting_high() == old(self).awaiting_high(),
    {
        self.hi = (data >> 8) as u8;
        self.lo = (data & 0xFF) as u8;
        proof {
            lemma_split_combine(data);
        }
    }

    /// One single-byte write: fills the half the flip-flop points at, masks
    /// the combined value to 14 bits, and flips the flip-flop.
    pub fn update(&mut self, data: u8)
        ensures
            final(self).spec_get() == spec_update(
                old(self).spec_get(),
                old(self).awaiting_high(),
                data,
            ),
            final(self).awaiting_high() == !old(self).awaiting_high(),
            final(self).wf(),
    {
        let ghost h = self.hi;
        let ghost l = self.lo;
        if self.high_ptr {
            self.hi = data;
        } else {
            self.lo = data;
        }
        proof {
            lemma_update_effect(h, l, data);
        }
        if self.get() > 0x3FFF {
            let masked = self.get() & 0x3FFF;
            self.set(masked);
        }
        self.high_ptr = !self.high_ptr;
    }

    /// Advances the address by `inc`: the low byte is added with wraparound,
    /// a carry detected by comparing the old and new low byte feeds the high
    /// byte, and the result is masked to 14 bits.
    pub fn increment(&mut self, inc: u8)
        ensures
            final(self).spec_get() == spec_increment(old(self).spec_get(), inc),
            final(self).awaiting_high() == old(self).awaiting_high(),
            final(self).wf(),
    {
        let ghost h = self.hi;
        let ghost l = self.lo;
        let lo = self.lo;
        self.lo = self.lo.wrapping_add(inc);
        if lo > self.lo {
            self.hi = self.hi.wrapping_add(1);
        }
        proof {
            lemma_increment_effect(h, l, inc, self.hi, self.lo);
        }
        if self.get() > 0x3FFF {
            let masked = self.get() & 0x3FFF;
            self.set(masked);
        }
    }

    /// Forces the next single-byte write to target the high byte, whatever
    /// the flip-flop's current parity.
    pub fn reset_latch(&mut self)
        ensures
            final(self).spec_get() == old(self).spec_get(),
            final(self).awaiting_high(),
    {
        self.high_ptr = true;
    }

    /// The current combined value. No side effects.
    pub fn get(&self) -> (r: u16)
        ensures
            r == self.spec_get(),
    {
        ((self.hi as u16) << 8) | (self.lo as u16)
    }
}

/// The address-increment step the control register selects: 32 when the
/// increment bit (bit 2) is set, 1 otherwise.
pub open spec fn spec_step(bits: u8) -> u8 {
    if bits & 0x04u8 == 0 {
        1u8
    } else {
        32u8
    }
}

/// The 8-bit control register. All eight bits are stored verbatim; only the
/// address-increment bit is consumed by this engine, the rest are kept for
/// the out-of-scope rendering and interrupt logic.
pub struct ControlRegister {
    bits: u8,
}

impl ControlRegister {
    /// The raw stored bitfield.
    pub closed spec fn spec_bits(&self) -> u8 {
        self.bits
    }

    /// A fresh register with every bit clear.
    pub fn new() -> (r: ControlRegister)
        ensures
            r.spec_bits() == 0,
    {
        ControlRegister { bits: 0 }
    }

    /// The configured address-increment step: 1 or 32.
    pub fn vram_addr_increment(&self) -> (r: u8)
        ensures
            r == spec_step(self.spec_bits()),
    {
        if self.bits & 0x04 == 0 {
            1
        } else {
            32
        }
    }

    /// Replaces the whole bitfield; no masking, all eight bits are meaningful.
    pub fn update(&mut self, data: u8)
        ensures
            final(self).spec_bits() == data,
    {
        self.bits = data;
    }
}

/// The engine was driven outside its contract: an address in the undefined
/// alias range, or an address the configured memory cannot back. Fatal to the
/// caller; never retried.
#[derive(Clone, Copy, Debug, PartialEq, Eq, Structural)]
pub enum PpuError {
    ContractViolation,
}

/// A sequence of `n` zero bytes.
pub open spec fn zero_seq(n: nat) -> Seq<u8> {
    Seq::new(n, |i: int| 0u8)
}

/// Physical nametable index for a raw address in the nametable region: the
/// address is masked to 14 bits (folding the 0x3000 alias range down), made
/// 0-based, and its logical 1KB table is folded onto the two physical banks
/// as the mirroring mode dictates.
pub open spec fn spec_mirror_vram(m: Mirroring, addr: u16) -> int
    recommends
        0x2000 <= addr <= 0x3EFF,
{
    let idx = (addr & 0x2FFF) - 0x2000;
    let table = idx / 0x400;
    if m == Mirroring::Vertical && (table == 2 || table == 3) {
        idx - 0x800
    } else if m == Mirroring::Horizontal && (table == 1 || table == 2) {
        idx - 0x400
    } else if m == Mirroring::Horizontal && table == 3 {
        idx - 0x800
    } else {
        idx
    }
}

/// Under vertical mirroring, logical tables 2 and 3 alias logical tables 0
/// and 1: a nametable address and the address 0x800 below it reach the same
/// physical index.
pub proof fn lemma_vertical_mirroring_aliases(addr: u16)
    requires
        0x2800 <= addr <= 0x2FFF,
    ensures
        spec_mirror_vram(Mirroring::Vertical, addr) == spec_mirror_vram(
            Mirroring::Vertical,
            (addr - 0x800) as u16,
        ),
{
    let low = (addr - 0x800) as u16;
    assert(addr & 0x2FFF == addr && low & 0x2FFF == low) by (bit_vector)
        requires
            0x2800 <= addr <= 0x2FFF && low == (addr - 0x800) as u16,
    ;
}

/// Under horizontal mirroring, logical table 1 aliases logical table 0: a
/// table-1 address and the address 0x400 below it reach the same physical
/// index.
pub proof fn lemma_horizontal_table_one_aliases_zero(addr: u16)
    requires
        0x2400 <= addr <= 0x27FF,
    ensures
        spec_mirror_vram(Mirroring::Horizontal, addr) == spec_mirror_vram(
            Mirroring::Horizontal,
            (addr - 0x400) as u16,
        ),
{
    let low = (addr - 0x400) as u16;
    assert(addr & 0x2FFF == addr && low & 0x2FFF == low) by (bit_vector)
        requires
            0x2400 <= addr <= 0x27FF && low == (addr - 0x400) as u16,
    ;
}

/// Under horizontal mirroring, logical tables 2 and 3 share one physical
/// bank: a table-2 address and the address 0x400 above it reach the same
/// physical index.
pub proof fn lemma_horizontal_tables_two_three_share(addr: u16)
    requires
        0x2800 <= addr <= 0x2BFF,
    ensures
        spec_mirror_vram(Mirroring::Horizontal, addr) == spec_mirror_vram(
            Mirroring::Horizontal,
            (addr + 0x400) as u16,
        ),
{
    let high = (addr + 0x400) as u16;
    assert(addr & 0x2FFF == addr && high & 0x2FFF == high) by (bit_vector)
        requires
            0x2800 <= addr <= 0x2BFF && high == (addr + 0x400) as u16,
    ;
}

/// Allocates a vector of `n` zero bytes.
fn zero_bytes(n: usize) -> (r: Vec<u8>)
    ensures
        r@ == zero_seq(n as nat),
{
    let mut v: Vec<u8> = Vec::new();
    let mut i: usize = 0;
    while i < n
        invariant
            i <= n,
            v@ == zero_seq(i as nat),
        decreases n - i,
    {
        v.push(0);
        i = i + 1;
        proof {
            assert(v@ =~= zero_seq(i as nat));
        }
    }
    v
}

/// The byte a data-port read deposits in the read buffer when the engine's
/// address port holds `a`: the addressed pattern byte, or the physical
/// nametable byte the mirroring fold selects; nothing when `a` lies in the
/// undefined alias range or the configured memory cannot back it.
pub open spec fn spec_fetch(p: PPU, a: u16) -> Option<u8> {
    if a < 0x2000 {
        if a < p.chr().len() {
            Some(p.chr()[a as int])
        } else {
            None
        }
    } else if a < 0x3000 {
        let m = spec_mirror_vram(p.mirroring(), a);
        if m < 2048 {
            Some(p.nametables()[m])
        } else {
            None
        }
    } else {
        None
    }
}

/// The picture unit's address/register engine: character memory and
/// mirroring mode from the cartridge, the physical nametable store, the
/// palette and sprite stores, the two registers and the one-byte read
/// buffer. All storage is private; callers interact only through the typed
/// register operations, so the 14-bit address invariant cannot be bypassed.
pub struct PPU {
    internal_data_buf: u8,
    chr_rom: Vec<u8>,
    mirroring: Mirroring,
    palette_table: Vec<u8>,
    vram: Vec<u8>,
    oam_data: Vec<u8>,
    secondary_oam: Vec<u8>,
    ctrl: ControlRegister,
    addr: AddrRegister,
}

impl PPU {
    /// The one-byte read buffer implementing the one-access read latency.
    pub closed spec fn buf(&self) -> u8 {
        self.internal_data_buf
    }

    /// The cartridge-supplied character (pattern) bytes.
    pub closed spec fn chr(&self) -> Seq<u8> {
        self.chr_rom@
    }

    /// The cartridge-declared mirroring mode.
    pub closed spec fn mirroring(&self) -> Mirroring {
        self.mirroring
    }

    /// The 2048-byte physical nametable store.
    pub closed spec fn nametables(&self) -> Seq<u8> {
        self.vram@
    }

    /// The 32-byte palette store.
    pub closed spec fn palette(&self) -> Seq<u8> {
        self.palette_table@
    }

    /// The 256-byte object-attribute store.
    pub closed spec fn oam(&self) -> Seq<u8> {
        self.oam_data@
    }

    /// The 32-byte secondary object-attribute scratch store.
    pub closed spec fn scratch_oam(&self) -> Seq<u8> {
        self.secondary_oam@
    }

    /// The control register's raw bitfield.
    pub closed spec fn ctrl_bits(&self) -> u8 {
        self.ctrl.spec_bits()
    }

    /// The address port's current 14-bit value.
    pub closed spec fn addr_value(&self) -> u16 {
        self.addr.spec_get()
    }

    /// Whether the address port's next write fills the high byte.
    pub closed spec fn awaiting_high(&self) -> bool {
        self.addr.awaiting_high()
    }

    /// The fixed stores have their hardware sizes and the address port is
    /// masked to the 14-bit space. Established by the constructor, preserved
    /// by every operation.
    pub open spec fn wf(&self) -> bool {
        &&& self.nametables().len() == 2048
        &&& self.palette().len() == 32
        &&& self.oam().len() == 256
        &&& self.scratch_oam().len() == 32
        &&& self.addr_value() <= 0x3FFF
    }

    /// A fresh engine over the given character data and mirroring mode:
    /// every store zeroed, both registers cleared, the read buffer empty.
    pub fn new(chr_rom: Vec<u8>, mirroring: Mirroring) -> (r: PPU)
        ensures
            r.wf(),
            r.chr() == chr_rom@,
            r.mirroring() == mirroring,
            r.buf() == 0,
            r.addr_value() == 0,
            r.awaiting_high(),
            r.ctrl_bits() == 0,
            r.nametables() == zero_seq(2048),
            r.palette() == zero_seq(32),
            r.oam() == zero_seq(256),
            r.scratch_oam() == zero_seq(32),
    {
        PPU {
            internal_data_buf: 0,
            chr_rom,
            mirroring,
            palette_table: zero_bytes(32),
            vram: zero_bytes(2048),
            oam_data: zero_bytes(256),
            secondary_oam: zero_bytes(32),
            ctrl: ControlRegister::new(),
            addr: AddrRegister::new(),
        }
    }

    /// One single-byte write to the address port.
    pub fn write_to_ppu_addr(&mut self, data: u8)
        ensures
            final(self).addr_value() == spec_update(
                old(self).addr_value(),
                old(self).awaiting_high(),
                data,
            ),
            final(self).awaiting_high() == !old(self).awaiting_high(),
            final(self).buf() == old(self).buf(),
            final(self).chr() == old(self).chr(),
            final(self).mirroring() == old(self).mirroring(),
            final(self).nametables() == old(self).nametables(),
            final(self).palette() == old(self).palette(),
            final(self).oam() == old(self).oam(),
            final(self).scratch_oam() == old(self).scratch_oam(),
            final(self).ctrl_bits() == old(self).ctrl_bits(),
            old(self).wf() ==> final(self).wf(),
    {
        self.addr.update(data);
    }

    /// Replaces the control register's bitfield.
    pub fn write_to_ctrl(&mut self, data: u8)
        ensures
            final(self).ctrl_bits() == data,
            final(self).addr_value() == old(self).addr_value(),
            final(self).awaiting_high() == old(self).awaiting_high(),
            final(self).buf() == old(self).buf(),
            final(self).chr() == old(self).chr(),
            final(self).mirroring() == old(self).mirroring(),
            final(self).nametables() == old(self).nametables(),
            final(self).palette() == old(self).palette(),
            final(self).oam() == old(self).oam(),
            final(self).scratch_oam() == old(self).scratch_oam(),
            old(self).wf() ==> final(self).wf(),
    {
        self.ctrl.update(data);
    }

    /// Advances the address port by the control register's configured step.
    pub fn increment_vram_addr(&mut self)
        ensures
            final(self).addr_value() == spec_increment(
                old(self).addr_value(),
                spec_step(old(self).ctrl_bits()),
            ),
            final(self).awaiting_high() == old(self).awaiting_high(),
            final(self).buf() == old(self).buf(),
            final(self).chr() == old(self).chr(),
            final(self).mirroring() == old(self).mirroring(),
            final(self).nametables() == old(self).nametables(),
            final(self).palette() == old(self).palette(),
            final(self).oam() == old(self).oam(),
            final(self).scratch_oam() == old(self).scratch_oam(),
            final(self).ctrl_bits() == old(self).ctrl_bits(),
            old(self).wf() ==> final(self).wf(),
    {
        let step = self.ctrl.vram_addr_increment();
        self.addr.increment(step);
    }

    /// Folds a raw nametable-region address onto the 2048-byte physical
    /// store. Pure; the exact historical fold, not a generic modulo.
    pub fn mirror_vram_addr(&self, addr: u16) -> (r: u16)
        requires
            0x2000 <= addr <= 0x3EFF,
        ensures
            r == spec_mirror_vram(self.mirroring(), addr),
            r < 0x1000,
            self.mirroring() != Mirroring::FourScreen ==> r < 0x800,
    {
        let mirrored = addr & 0x2FFF;
        proof {
            assert(0x2000 <= (addr & 0x2FFF) <= 0x2FFF) by (bit_vector)
                requires
                    0x2000 <= addr <= 0x3EFF,
            ;
        }
        let vram_index = mirrored - 0x2000;
        let name_table = vram_index / 0x400;
        match self.mirroring {
            Mirroring::Vertical => {
                if name_table == 2 || name_table == 3 {
                    vram_index - 0x800
                } else {
                    vram_index
                }
            },
            Mirroring::Horizontal => {
                if name_table == 1 || name_table == 2 {
                    vram_index - 0x400
                } else if name_table == 3 {
                    vram_index - 0x800
                } else {
                    vram_index
                }
            },
            Mirroring::FourScreen => vram_index,
        }
    }

    /// The buffered data-port read. The address port always advances by the
    /// configured step, whatever region was addressed. A pattern-space or
    /// nametable-space access returns the buffer's previous contents and
    /// refreshes the buffer from the addressed byte — the caller always sees
    /// the value of the prior access. An address in the undefined alias
    /// range, or one the configured memory cannot back, is reported as a
    /// contract violation and leaves the buffer alone.
    pub fn read_data(&mut self) -> (r: Result<u8, PpuError>)
        requires
            old(self).wf(),
        ensures
            final(self).wf(),
            final(self).addr_value() == spec_increment(
                old(self).addr_value(),
                spec_step(old(self).ctrl_bits()),
            ),
            final(self).awaiting_high() == old(self).awaiting_high(),
            final(self).chr() == old(self).chr(),
            final(self).mirroring() == old(self).mirroring(),
            final(self).nametables() == old(self).nametables(),
            final(self).palette() == old(self).palette(),
            final(self).oam() == old(self).oam(),
            final(self).scratch_oam() == old(self).scratch_oam(),
            final(self).ctrl_bits() == old(self).ctrl_bits(),
            ({
                match spec_fetch(*old(self), old(self).addr_value()) {
                    Some(fetched) => {
                        &&& r matches Ok(b) && b == old(self).buf()
                        &&& final(self).buf() == fetched
                    },
                    None => {
                        &&& r matches Err(e) && e == PpuError::ContractViolation
                        &&& final(self).buf() == old(self).buf()
                    },
                }
            }),
    {
        let addr = self.addr.get();
        self.increment_vram_addr();
        if addr < 0x2000 {
            if (addr as usize) < self.chr_rom.len() {
                let result = self.internal_data_buf;
                self.internal_data_buf = self.chr_rom[addr as usize];
                Ok(result)
            } else {
                Err(PpuError::ContractViolation)
            }
        } else if addr < 0x3000 {
            let m = self.mirror_vram_addr(addr);
            if (m as usize) < 2048 {
                let result = self.internal_data_buf;
                self.internal_data_buf = self.vram[m as usize];
                Ok(result)
            } else {
                Err(PpuError::ContractViolation)
            }
        } else {
            Err(PpuError::ContractViolation)
        }
    }
}

/// One-access read latency. Consider two consecutive successful data-port
/// reads: the first takes the engine from `p0` to `p1` returning `r1`, the
/// second starts from `p1` and returns `r2` — each call behaving as
/// `read_data` ensures. Then the second call surfaces exactly the byte the
/// first call's address selected, never the byte it addressed itself.
pub proof fn lemma_buffered_read_latency(p0: PPU, p1: PPU, r1: u8, r2: u8)
    requires
        r1 == p0.buf(),
        spec_fetch(p0, p0.addr_value()) matches Some(fetched) && p1.buf() == fetched,
        r2 == p1.buf(),
    ensures
        Some(r2) == spec_fetch(p0, p0.addr_value()),
{
}

} // verus!
