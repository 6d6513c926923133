use vstd::prelude::*;

use crate::bus::{bus_mem_val_from, BusV, PeripheralV};
use crate::cpu::enums::{Exchange, Register};
use crate::cpu::mmu::MMU;
use crate::cpu::{make16, wadd16, wsub16, CPU};

verus! {

/// Whether the peripheral that wins read arbitration for this physical
/// address is a writable memory, scanning from index `i`.
pub open spec fn mem_backed_from(s: Seq<PeripheralV>, address: u32, i: int) -> bool
    decreases s.len() - i,
{
    if i < 0 || i >= s.len() {
        false
    } else if s[i].claims_mem(address) {
        s[i] is Ram
    } else {
        mem_backed_from(s, address, i + 1)
    }
}

impl BusV {
    /// Whether a read of this address is answered by a writable memory, so a
    /// broadcast write to it is visible to a following read.
    pub open spec fn mem_backed(self, address: u32) -> bool {
        mem_backed_from(self.peripherals, address, 0)
    }
}

/// A broadcast memory write moves no peripheral's decode window and keeps
/// every peripheral well-formed, so which addresses are claimed, and by what
/// kind of peripheral, is stable under writes.
pub proof fn lemma_write_preserves_shape(p: PeripheralV, address: u32, data: u8, other: u32)
    requires
        p.wf(),
    ensures
        p.mem_write_spec(address, data).wf(),
        p.mem_write_spec(address, data).claims_mem(other) == p.claims_mem(other),
        p.mem_write_spec(address, data) is Ram <==> p is Ram,
{
}

/// Read-after-write, elementwise: a write lands in the byte the same
/// peripheral serves back, and no other address of it changes.
pub proof fn lemma_peripheral_raw(p: PeripheralV, address: u32, data: u8, other: u32)
    requires
        p.wf(),
    ensures
        p is Ram && p.claims_mem(address) ==> p.mem_write_spec(address, data).mem_at(address)
            == data,
        other != address && p.claims_mem(other) ==> p.mem_write_spec(address, data).mem_at(other)
            == p.mem_at(other),
{
}

/// Read-after-write on the bus: when the peripheral that answers reads of an
/// address is a writable memory, a broadcast write of a byte to that address
/// is what a following read returns.
pub proof fn lemma_bus_raw(s: Seq<PeripheralV>, address: u32, data: u8, i: int)
    requires
        0 <= i <= s.len(),
        forall|j: int| 0 <= j < s.len() ==> s[j].wf(),
        mem_backed_from(s, address, i),
    ensures
        bus_mem_val_from(
            Seq::new(s.len(), |k: int| s[k].mem_write_spec(address, data)),
            address,
            i,
        ) == data,
    decreases s.len() - i,
{
    if s[i].claims_mem(address) {
        lemma_write_preserves_shape(s[i], address, data, address);
        lemma_peripheral_raw(s[i], address, data, address);
    } else {
        lemma_write_preserves_shape(s[i], address, data, address);
        lemma_bus_raw(s, address, data, i + 1);
    }
}

/// A write to one address leaves reads of every other address unchanged.
pub proof fn lemma_bus_write_frame(s: Seq<PeripheralV>, address: u32, data: u8, other: u32, i: int)
    requires
        0 <= i <= s.len(),
        forall|j: int| 0 <= j < s.len() ==> s[j].wf(),
        other != address,
    ensures
        bus_mem_val_from(
            Seq::new(s.len(), |k: int| s[k].mem_write_spec(address, data)),
            other,
            i,
        ) == bus_mem_val_from(s, other, i),
    decreases s.len() - i,
{
    if 0 <= i < s.len() {
        lemma_write_preserves_shape(s[i], address, data, other);
        lemma_peripheral_raw(s[i], address, data, other);
        if !s[i].claims_mem(other) {
            lemma_bus_write_frame(s, address, data, other, i + 1);
        }
    }
}

/// Writes keep the backing shape of every address.
pub proof fn lemma_bus_write_keeps_backing(
    s: Seq<PeripheralV>,
    address: u32,
    data: u8,
    other: u32,
    i: int,
)
    requires
        0 <= i <= s.len(),
        forall|j: int| 0 <= j < s.len() ==> s[j].wf(),
    ensures
        mem_backed_from(
            Seq::new(s.len(), |k: int| s[k].mem_write_spec(address, data)),
            other,
            i,
        ) == mem_backed_from(s, other, i),
    decreases s.len() - i,
{
    if 0 <= i < s.len() {
        lemma_write_preserves_shape(s[i], address, data, other);
        if !s[i].claims_mem(other) {
            lemma_bus_write_keeps_backing(s, address, data, other, i + 1);
        }
    }
}

/// The bus-level restatements of the elementwise lemmas, over `BusV`.
pub proof fn lemma_busv_raw(bus: BusV, address: u32, data: u8)
    requires
        bus.wf(),
        bus.mem_backed(address),
    ensures
        bus.mem_write_spec(address, data).mem_val(address) == data,
        bus.mem_write_spec(address, data).wf(),
        forall|other: u32| #![auto] other != address ==> bus.mem_write_spec(
            address,
            data,
        ).mem_val(other) == bus.mem_val(other),
        forall|other: u32| #[trigger] bus.mem_write_spec(address, data).mem_backed(other)
            == bus.mem_backed(other),
{
    lemma_bus_raw(bus.peripherals, address, data, 0);
    assert forall|other: u32| #![auto] other != address implies bus.mem_write_spec(
        address,
        data,
    ).mem_val(other) == bus.mem_val(other) by {
        lemma_bus_write_frame(bus.peripherals, address, data, other, 0);
    }
    assert forall|other: u32| #[trigger] bus.mem_write_spec(address, data).mem_backed(other)
        == bus.mem_backed(other) by {
        lemma_bus_write_keeps_backing(bus.peripherals, address, data, other, 0);
    }
    assert forall|j: int| 0 <= j < bus.mem_write_spec(address, data).peripherals.len() implies
        bus.mem_write_spec(address, data).peripherals[j].wf() by {
        lemma_write_preserves_shape(bus.peripherals[j], address, data, address);
    }
}

/// `PUSH rr; POP rr` restores both the pushed register pair and SP, provided
/// the MMU maps the two stack bytes to distinct addresses that writable
/// memory answers for.
pub proof fn lemma_push_pop(c: CPU, bus: BusV, val: u16)
    requires
        bus.wf(),
        bus.mem_backed(c.phys(wsub16(c.sr.sp, 1))),
        bus.mem_backed(c.phys(wsub16(c.sr.sp, 2))),
        c.phys(wsub16(c.sr.sp, 1)) != c.phys(wsub16(c.sr.sp, 2)),
    ensures
        c.push_cpu().pop_val(c.push_bus(bus, val)) == val,
        wadd16(c.push_cpu().sr.sp, 2) == c.sr.sp,
{
    let hi: u8 = (val / 256) as u8;
    let lo: u8 = (val % 256) as u8;
    let a1 = c.phys(wsub16(c.sr.sp, 1));
    let a2 = c.phys(wsub16(c.sr.sp, 2));
    let bus1 = bus.mem_write_spec(a1, hi);
    let bus2 = bus1.mem_write_spec(a2, lo);
    lemma_busv_raw(bus, a1, hi);
    lemma_busv_raw(bus1, a2, lo);
    // the pop reads at SP-2 (new SP) and SP-1
    assert(wadd16(wsub16(c.sr.sp, 2), 1) == wsub16(c.sr.sp, 1));
    assert(bus2.mem_val(a2) == lo);
    assert(bus2.mem_val(a1) == bus1.mem_val(a1));
    assert(bus1.mem_val(a1) == hi);
    assert(c.push_cpu().pop_val(c.push_bus(bus, val)) == make16(hi, lo));
    assert(make16(hi, lo) == val) by {
        assert(val / 256 * 256 + val % 256 == val);
    }
}

/// `INC rr; DEC rr` (and the reverse) is the identity on every 16-bit value;
/// 0x0000 decrements to 0xFFFF. Neither operation touches the flags, which
/// the contracts of `inc16` and `dec16` state by leaving F out of the
/// register writes.
pub proof fn lemma_inc16_dec16_identity(v: u16)
    ensures
        wsub16(wadd16(v, 1), 1) == v,
        wadd16(wsub16(v, 1), 1) == v,
        wsub16(0, 1) == 0xffff,
{
}

/// MMU translation is a pure function of the three mapping registers: with
/// CBAR, CBR and BBR unchanged, every translation of an address yields the
/// same physical address, however often it is computed.
pub proof fn lemma_translate_stable(m1: MMU, m2: MMU, addr: u16)
    requires
        m1.cbr == m2.cbr,
        m1.bbr == m2.bbr,
        m1.cbar == m2.cbar,
    ensures
        m1.translate(addr) == m2.translate(addr),
{
}

/// Writing a register and reading it back returns the written value: exactly
/// for the 16-bit names, and the low byte for the 8-bit halves, whose writes
/// never tear the neighbouring half.
pub proof fn lemma_reg_round_trip(c: CPU, r: Register, v: u16)
    ensures
        r == Register::AF || r == Register::BC || r == Register::DE || r == Register::HL || r
            == Register::IX || r == Register::IY || r == Register::SP || r == Register::PC
            ==> c.write_reg_spec(r, v).reg_spec(r) == v,
        r == Register::A || r == Register::F || r == Register::B || r == Register::C || r
            == Register::D || r == Register::E || r == Register::H || r == Register::L || r
            == Register::I || r == Register::R ==> c.write_reg_spec(r, v).reg_spec(r) == v % 256,
{
    let lo = v % 256;
    let hi = v / 256;
    assert(hi * 256 + lo == v);
    match r {
        Register::B => {
            assert(((c.gr.bc % 256) + lo * 256) / 256 == lo);
            assert(c.write_reg_spec(r, v).reg_spec(r) == v % 256);
        },
        Register::C => {
            assert(((c.gr.bc / 256) * 256 + lo) % 256 == lo);
        },
        Register::D => {
            assert(((c.gr.de % 256) + lo * 256) / 256 == lo);
        },
        Register::E => {
            assert(((c.gr.de / 256) * 256 + lo) % 256 == lo);
        },
        Register::H => {
            assert(((c.gr.hl % 256) + lo * 256) / 256 == lo);
        },
        Register::L => {
            assert(((c.gr.hl / 256) * 256 + lo) % 256 == lo);
        },
        Register::AF => {
            assert(make16((v / 256) as u8, (v % 256) as u8) == v);
        },
        _ => {},
    }
}

/// Exchanging through (SP) twice restores the exchanged register and the two
/// stack bytes, provided (SP) and (SP)+1 are distinct writable memory.
pub proof fn lemma_ex_sp_involution(c: CPU, bus: BusV)
    requires
        bus.wf(),
        bus.mem_backed(c.phys(c.sr.sp)),
        bus.mem_backed(c.phys(wadd16(c.sr.sp, 1))),
        c.phys(c.sr.sp) != c.phys(wadd16(c.sr.sp, 1)),
    ensures
        c.ex_sp_cpu(bus, Exchange::SpHl).ex_sp_cpu(
            c.ex_sp_bus(bus, c.gr.hl),
            Exchange::SpHl,
        ).gr.hl == c.gr.hl,
        c.ex_sp_cpu(c.ex_sp_bus(bus, c.gr.hl), Exchange::SpHl).ex_sp_bus(
            c.ex_sp_bus(bus, c.gr.hl),
            c.ex_sp_cpu(bus, Exchange::SpHl).gr.hl,
        ).mem_val(c.phys(c.sr.sp)) == bus.mem_val(c.phys(c.sr.sp)),
{
    let a0 = c.phys(c.sr.sp);
    let a1 = c.phys(wadd16(c.sr.sp, 1));
    let lo: u8 = (c.gr.hl % 256) as u8;
    let hi: u8 = (c.gr.hl / 256) as u8;
    let bus1 = bus.mem_write_spec(a0, lo);
    let bus2 = bus1.mem_write_spec(a1, hi);
    lemma_busv_raw(bus, a0, lo);
    lemma_busv_raw(bus1, a1, hi);
    // first exchange: HL takes the old word at SP, memory takes HL
    let m = c.word_at_sp(bus);
    let c1 = c.ex_sp_cpu(bus, Exchange::SpHl);
    assert(c1.gr.hl == m);
    assert(c1.sr.sp == c.sr.sp);
    // second exchange: HL takes the word now in memory, which is old HL
    assert(bus2.mem_val(a0) == bus1.mem_val(a0));
    assert(bus2.mem_val(a0) == lo);
    assert(bus2.mem_val(a1) == hi);
    assert(c1.ex_sp_cpu(bus2, Exchange::SpHl).gr.hl == make16(hi, lo));
    assert(make16(hi, lo) == c.gr.hl) by {
        assert(c.gr.hl / 256 * 256 + c.gr.hl % 256 == c.gr.hl);
    }
    // and the second write puts the old memory word back at (SP)
    let mlo: u8 = (m % 256) as u8;
    let bus3 = bus2.mem_write_spec(a0, mlo);
    lemma_busv_raw(bus2, a0, mlo);
    let bus4 = bus3.mem_write_spec(a1, (m / 256) as u8);
    lemma_busv_raw(bus3, a1, (m / 256) as u8);
    assert(bus4.mem_val(a0) == mlo);
    assert(bus.mem_val(a0) == mlo) by {
        assert(m == make16(bus.mem_val(a1) as u8, bus.mem_val(a0) as u8));
        assert(make16(bus.mem_val(a1), bus.mem_val(a0)) % 256 == bus.mem_val(a0));
    }
}


/// The physical address of the `k`-th byte of a block based at a logical
/// address, under the translation the CPU currently holds.
pub open spec fn block_addr(c: CPU, base: u16, k: int) -> u32 {
    c.phys(wadd16(base, k as u16))
}

/// The machine after `n` steps of the repeating block transfer (`LDIR`):
/// each step copies (HL) to (DE), advances both pointers and decrements BC.
pub open spec fn ldir_iter(c: CPU, bus: BusV, n: nat) -> (CPU, BusV)
    decreases n,
{
    if n == 0 {
        (c, bus)
    } else {
        ldir_iter(
            c.ldi_cpu(crate::cpu::enums::Direction::Increment, true),
            c.ldi_bus(bus),
            (n - 1) as nat,
        )
    }
}

/// Stepping a wrapped base once and then `k` more times lands `k + 1` past
/// the base.
pub proof fn lemma_wadd16_step(base: u16, k: u16)
    requires
        k < 0xffff,
    ensures
        wadd16(wadd16(base, 1), k) == wadd16(base, (k + 1) as u16),
{
    assert(((base + 1) % 0x10000 + k) % 0x10000 == (base + 1 + k) % 0x10000) by (nonlinear_arith);
}


/// `LDIR` from a source block of length `n` to a disjoint destination block
/// leaves the destination byte-identical to the pre-copy source and ends
/// with BC zero, HL and DE advanced past their blocks. The destination bytes
/// must be answered by writable memory at pairwise distinct physical
/// addresses, disjoint from the source's; everything outside the destination
/// is untouched. This is the repeating block-transfer unit iterated once per
/// tick; the decoder re-fetches the instruction between steps.
#[verifier::rlimit(100)]
#[verifier::spinoff_prover]
pub proof fn lemma_ldir_block_copy(c: CPU, bus: BusV, n: int)
    requires
        bus.wf(),
        1 <= n <= 0xffff,
        c.gr.bc == n as u16,
        forall|k: int| 0 <= k < n ==> #[trigger] bus.mem_backed(block_addr(c, c.gr.de, k)),
        forall|k1: int, k2: int|
            0 <= k1 < n && 0 <= k2 < n && k1 != k2 ==> #[trigger] block_addr(c, c.gr.de, k1)
                != #[trigger] block_addr(c, c.gr.de, k2),
        forall|k1: int, k2: int|
            0 <= k1 < n && 0 <= k2 < n ==> #[trigger] block_addr(c, c.gr.hl, k1)
                != #[trigger] block_addr(c, c.gr.de, k2),
    ensures
        ldir_iter(c, bus, n as nat).0.gr.bc == 0,
        ldir_iter(c, bus, n as nat).0.gr.hl == wadd16(c.gr.hl, n as u16),
        ldir_iter(c, bus, n as nat).0.gr.de == wadd16(c.gr.de, n as u16),
        ldir_iter(c, bus, n as nat).1.wf(),
        forall|k: int|
            0 <= k < n ==> #[trigger] ldir_iter(c, bus, n as nat).1.mem_val(
                block_addr(c, c.gr.de, k),
            ) == bus.mem_val(block_addr(c, c.gr.hl, k)),
        forall|addr: u32|
            (forall|k: int| 0 <= k < n ==> addr != block_addr(c, c.gr.de, k)) ==> #[trigger]
                ldir_iter(c, bus, n as nat).1.mem_val(addr) == bus.mem_val(addr),
    decreases n,
{
    let data = bus.mem_val(block_addr(c, c.gr.hl, 0));
    let c1 = c.ldi_cpu(crate::cpu::enums::Direction::Increment, true);
    let bus1 = c.ldi_bus(bus);
    assert(block_addr(c, c.gr.hl, 0) == c.phys(c.gr.hl) && block_addr(c, c.gr.de, 0) == c.phys(
        c.gr.de,
    )) by {
        assert(wadd16(c.gr.hl, 0) == c.gr.hl && wadd16(c.gr.de, 0) == c.gr.de);
    }
    lemma_busv_raw(bus, c.phys(c.gr.de), data);
    if n == 1 {
        assert(c1.gr.bc == 0);
    } else {
        // line the next step's blocks up with this one's, shifted by one
        assert(c1.mmu == c.mmu);
        assert forall|k: int| 0 <= k < n - 1 implies #[trigger] block_addr(c1, c1.gr.hl, k)
            == block_addr(c, c.gr.hl, k + 1) by {
            lemma_wadd16_step(c.gr.hl, k as u16);
        }
        assert forall|k: int| 0 <= k < n - 1 implies #[trigger] block_addr(c1, c1.gr.de, k)
            == block_addr(c, c.gr.de, k + 1) by {
            lemma_wadd16_step(c.gr.de, k as u16);
        }
        assert(c1.gr.bc == n - 1);
        assert forall|k: int| 0 <= k < n - 1 implies #[trigger] bus1.mem_backed(
            block_addr(c1, c1.gr.de, k),
        ) by {
            assert(bus.mem_backed(block_addr(c, c.gr.de, k + 1)));
        }
        lemma_ldir_block_copy(c1, bus1, n - 1);
        // the source bytes the later steps read were not moved by this write
        assert forall|k: int| 0 <= k < n - 1 implies bus1.mem_val(block_addr(c1, c1.gr.hl, k))
            == bus.mem_val(block_addr(c, c.gr.hl, k + 1)) by {
            assert(block_addr(c, c.gr.hl, k + 1) != block_addr(c, c.gr.de, 0));
        }
        // the byte this step wrote stays: the later writes land elsewhere
        assert forall|k: int| 0 <= k < n - 1 implies block_addr(c, c.gr.de, 0) != block_addr(
            c1,
            c1.gr.de,
            k,
        ) by {
            assert(block_addr(c, c.gr.de, 0) != block_addr(c, c.gr.de, k + 1));
        }
        assert(ldir_iter(c1, bus1, (n - 1) as nat).1.mem_val(block_addr(c, c.gr.de, 0))
            == bus1.mem_val(block_addr(c, c.gr.de, 0)));
        assert(ldir_iter(c, bus, n as nat) == ldir_iter(c1, bus1, (n - 1) as nat));
        assert forall|k: int| 0 <= k < n implies #[trigger] ldir_iter(c, bus, n as nat).1.mem_val(
            block_addr(c, c.gr.de, k),
        ) == bus.mem_val(block_addr(c, c.gr.hl, k)) by {
            if k == 0 {
                assert(bus1.mem_val(block_addr(c, c.gr.de, 0)) == data);
            } else {
                assert(ldir_iter(c1, bus1, (n - 1) as nat).1.mem_val(
                    block_addr(c1, c1.gr.de, k - 1),
                ) == bus1.mem_val(block_addr(c1, c1.gr.hl, k - 1)));
            }
        }
        assert forall|addr: u32|
            (forall|k: int| 0 <= k < n ==> addr != block_addr(c, c.gr.de, k)) implies #[trigger]
            ldir_iter(c, bus, n as nat).1.mem_val(addr) == bus.mem_val(addr) by {
            assert(addr != block_addr(c, c.gr.de, 0));
            assert(bus1.mem_val(addr) == bus.mem_val(addr));
            assert forall|k: int| 0 <= k < n - 1 implies addr != block_addr(c1, c1.gr.de, k) by {
                assert(addr != block_addr(c, c.gr.de, k + 1));
            }
        }
        // wrap-up of the pointer arithmetic
        lemma_wadd16_step(c.gr.hl, (n - 1) as u16);
        lemma_wadd16_step(c.gr.de, (n - 1) as u16);
        assert(ldir_iter(c, bus, n as nat).0.gr.hl == wadd16(wadd16(c.gr.hl, 1), (n - 1) as u16));
        assert(ldir_iter(c, bus, n as nat).0.gr.de == wadd16(wadd16(c.gr.de, 1), (n - 1) as u16));
    }
}

} // verus!
