use vstd::prelude::*;

verus! {

/// Physical address bit A19, which the boot ROM forces high after reset.
pub const ROM_A19: u32 = 0x8_0000;

/// Read-only memory claiming `[start, start + size)`. After reset the ROM
/// forces A19 high on every read until the processor fetches an opcode with
/// A19 driven high on its own, so the system boots from the ROM image even
/// though the CPU starts at physical address zero.
///
/// The flash command state machine of the part this models is outside this
/// core: memory-space writes are absorbed without effect.
pub struct ROM {
    pub start: u32,
    pub size: u32,
    pub bytes: Vec<u8>,
    pub is_masking: bool,
}

/// Mathematical model of a [`ROM`].
#[verifier::ext_equal]
pub ghost struct RomV {
    pub start: u32,
    pub size: u32,
    pub bytes: Seq<u8>,
    pub is_masking: bool,
}

impl View for ROM {
    type V = RomV;

    open spec fn view(&self) -> RomV {
        RomV { start: self.start, size: self.size, bytes: self.bytes@, is_masking: self.is_masking }
    }
}

impl RomV {
    pub open spec fn wf(self) -> bool {
        self.bytes.len() == self.size
    }

    /// The address actually decoded: A19 is forced high while masking.
    pub open spec fn masked(self, address: u32) -> u32 {
        if self.is_masking {
            address | ROM_A19
        } else {
            address
        }
    }

    /// Whether this ROM decodes the given physical address.
    pub open spec fn claims(self, address: u32) -> bool {
        self.start <= self.masked(address) && self.masked(address) - self.start < self.size
    }

    /// The byte stored at a claimed physical address.
    pub open spec fn byte_at(self, address: u32) -> u8 {
        self.bytes[self.masked(address) - self.start]
    }

    /// The ROM after it has seen an opcode fetch: a fetch with A19 high ends
    /// the masking.
    pub open spec fn observe_m1_spec(self, address: u32) -> RomV {
        if address & ROM_A19 != 0 {
            RomV { is_masking: false, ..self }
        } else {
            self
        }
    }
}

impl ROM {
    /// A ROM with the given image, based at physical address `base`, masking
    /// A19 as after reset.
    pub fn new(base: u32, contents: Vec<u8>) -> (r: ROM)
        requires
            contents@.len() <= u32::MAX,
        ensures
            r@.wf(),
            r@.start == base,
            r@.size == contents@.len(),
            r@.bytes == contents@,
            r@.is_masking,
    {
        let size: u32 = contents.len() as u32;
        ROM { start: base, size, bytes: contents, is_masking: true }
    }

    /// Reset restores the A19 masking.
    pub fn reset(&mut self)
        ensures
            *final(self) == (ROM { is_masking: true, ..*old(self) }),
    {
        self.is_masking = true;
    }

    /// An opcode fetch on the bus: a fetch with A19 high ends the masking.
    pub fn observe_m1(&mut self, address: u32)
        ensures
            final(self)@ == old(self)@.observe_m1_spec(address),
    {
        if address & ROM_A19 != 0 {
            self.is_masking = false;
        }
    }

    /// Memory-space read: the stored byte when the (masked) address is
    /// claimed.
    pub fn mem_read(&self, address: u32) -> (r: Option<u8>)
        requires
            self@.wf(),
        ensures
            r == (if self@.claims(address) {
                Some(self@.byte_at(address))
            } else {
                None::<u8>
            }),
    {
        let addr: u32 = if self.is_masking {
            address | ROM_A19
        } else {
            address
        };
        if addr >= self.start && addr - self.start < self.size {
            Some(self.bytes[(addr - self.start) as usize])
        } else {
            None
        }
    }
}

} // verus!
