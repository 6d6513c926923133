use vstd::prelude::*;

verus! {

/// IO port of the MMU common-base register.
pub const MMU_CBR: u16 = 0x38;
/// IO port of the MMU bank-base register.
pub const MMU_BBR: u16 = 0x39;
/// IO port of the MMU common/bank area register.
pub const MMU_CBAR: u16 = 0x3a;
/// IO port of the wait-state control register.
pub const MMU_DCNTL: u16 = 0x20;

/// The on-chip memory management unit. CBAR's high nibble is the common-area
/// boundary (x4K) and its low nibble the bank-area base (x4K); CBR and BBR
/// relocate the common and banked areas in 20-bit physical space.
#[derive(Debug, PartialEq, Eq, Structural, Copy, Clone)]
pub struct MMU {
    pub cbr: u8,
    pub bbr: u8,
    pub cbar: u8,
    /// Wait-state control; held for IO readback only, no timing is modelled.
    pub dcntl: u8,
}

/// Base of the banked area: CBAR low nibble times 4K.
pub open spec fn mmu_bank_base(cbar: u8) -> u16 {
    (((cbar & 0x0f) as u16) * 0x1000) as u16
}

/// Base of the common area: CBAR high nibble times 4K.
pub open spec fn mmu_common_base(cbar: u8) -> u16 {
    ((((cbar & 0xf0) as u16) / 16) * 0x1000) as u16
}

impl MMU {
    /// The state the MMU holds after reset: the whole common area starts at
    /// 0xF000 and both relocation registers are zero.
    pub open spec fn reset_spec() -> MMU {
        MMU { cbr: 0, bbr: 0, cbar: 0xf0, dcntl: 0xf0 }
    }

    /// Translation of a 16-bit logical address to a physical address:
    /// the base area maps identically, the banked area is relocated by
    /// BBR x 4K, and the common area by CBR x 4K.
    pub open spec fn translate(self, addr: u16) -> int {
        if addr < mmu_bank_base(self.cbar) {
            addr as int
        } else if addr < mmu_common_base(self.cbar) {
            addr + (self.bbr as int) * 0x1000 - mmu_bank_base(self.cbar)
        } else {
            addr + (self.cbr as int) * 0x1000 - mmu_common_base(self.cbar)
        }
    }

    pub fn new() -> (r: MMU)
        ensures
            r == MMU::reset_spec(),
    {
        MMU { cbr: 0, bbr: 0, cbar: 0xf0, dcntl: 0xf0 }
    }

    pub fn reset(&mut self)
        ensures
            *final(self) == MMU::reset_spec(),
    {
        self.cbr = 0;
        self.bbr = 0;
        self.cbar = 0xf0;
        self.dcntl = 0xf0;
    }

    /// Pure translation per the CBAR/CBR/BBR model; no MMU state changes.
    pub fn to_physical(&self, addr: u16) -> (r: u32)
        ensures
            r == self.translate(addr),
    {
        proof {
            let c = self.cbar;
            assert((c & 0x0f) < 16 && (c & 0xf0) <= 0xf0) by (bit_vector);
        }
        let bank: u16 = ((self.cbar & 0x0f) as u16) * 0x1000;
        let common: u16 = (((self.cbar & 0xf0) as u16) / 16) * 0x1000;
        if addr < bank {
            addr as u32
        } else if addr < common {
            addr as u32 + (self.bbr as u32) * 0x1000 - bank as u32
        } else {
            addr as u32 + (self.cbr as u32) * 0x1000 - common as u32
        }
    }

    /// Wait-state control readback.
    pub fn get_waits(&self) -> (r: u8)
        ensures
            r == self.dcntl,
    {
        self.dcntl
    }

    /// IO read of the MMU registers; addresses it does not own return None.
    pub fn io_read(&self, address: u16) -> (r: Option<u8>)
        ensures
            r == self.io_read_spec(address),
    {
        match address {
            MMU_CBR => Some(self.cbr),
            MMU_BBR => Some(self.bbr),
            MMU_CBAR => Some(self.cbar),
            _ => None,
        }
    }

    pub open spec fn io_read_spec(self, address: u16) -> Option<u8> {
        if address == MMU_CBR {
            Some(self.cbr)
        } else if address == MMU_BBR {
            Some(self.bbr)
        } else if address == MMU_CBAR {
            Some(self.cbar)
        } else {
            None
        }
    }

    pub open spec fn io_write_spec(self, address: u16, data: u8) -> MMU {
        if address == MMU_CBR {
            MMU { cbr: data, ..self }
        } else if address == MMU_BBR {
            MMU { bbr: data, ..self }
        } else if address == MMU_CBAR {
            MMU { cbar: data, ..self }
        } else if address == MMU_DCNTL {
            MMU { dcntl: data, ..self }
        } else {
            self
        }
    }

    /// IO write to the MMU registers; other addresses are ignored.
    pub fn io_write(&mut self, address: u16, data: u8)
        ensures
            *final(self) == old(self).io_write_spec(address, data),
    {
        match address {
            MMU_CBR => self.cbr = data,
            MMU_BBR => self.bbr = data,
            MMU_CBAR => self.cbar = data,
            MMU_DCNTL => self.dcntl = data,
            _ => (),
        }
    }
}

} // verus!
