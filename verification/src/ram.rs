use vstd::prelude::*;

verus! {

/// Random-access memory claiming the physical range `[start, start + size)`.
pub struct RAM {
    pub start: u32,
    pub size: u32,
    pub bytes: Vec<u8>,
}

/// Mathematical model of a [`RAM`]: its base, extent and contents.
#[verifier::ext_equal]
pub ghost struct RamV {
    pub start: u32,
    pub size: u32,
    pub bytes: Seq<u8>,
}

impl View for RAM {
    type V = RamV;

    open spec fn view(&self) -> RamV {
        RamV { start: self.start, size: self.size, bytes: self.bytes@ }
    }
}

impl RamV {
    /// The backing store always holds exactly `size` bytes.
    pub open spec fn wf(self) -> bool {
        self.bytes.len() == self.size
    }

    /// Whether this memory decodes the given physical address.
    pub open spec fn claims(self, address: u32) -> bool {
        self.start <= address && address - self.start < self.size
    }

    /// The byte stored at a claimed physical address.
    pub open spec fn byte_at(self, address: u32) -> u8 {
        self.bytes[address - self.start]
    }

    /// The memory after a memory-space write: the byte is stored when the
    /// address is claimed, otherwise the write is absorbed.
    pub open spec fn mem_write_spec(self, address: u32, data: u8) -> RamV {
        if self.claims(address) {
            RamV { bytes: self.bytes.update(address - self.start, data), ..self }
        } else {
            self
        }
    }
}

impl RAM {
    /// A memory of `size` zeroed bytes based at physical address `start`.
    pub fn new(start: u32, size: u32) -> (r: RAM)
        ensures
            r@.wf(),
            r@.start == start,
            r@.size == size,
            forall|i: int| 0 <= i < size ==> r@.bytes[i] == 0u8,
    {
        let mut bytes: Vec<u8> = Vec::new();
        let mut i: u32 = 0;
        while i < size
            invariant
                i <= size,
                bytes@.len() == i,
                forall|j: int| 0 <= j < i ==> bytes@[j] == 0u8,
            decreases size - i,
        {
            bytes.push(0);
            i = i + 1;
        }
        RAM { start, size, bytes }
    }

    /// Copy `data` into memory starting at physical address `address`,
    /// clamped to the end of the memory.
    pub fn write(&mut self, address: u32, data: &[u8])
        requires
            old(self)@.wf(),
            old(self)@.start <= address,
            address - old(self)@.start <= old(self)@.size,
        ensures
            final(self)@.wf(),
            final(self)@.start == old(self)@.start,
            final(self)@.size == old(self)@.size,
            forall|k: int|
                0 <= k < final(self)@.size ==> final(self)@.bytes[k] == (if address - old(self)@.start
                    <= k < address - old(self)@.start + data@.len() {
                    data@[k - (address - old(self)@.start)]
                } else {
                    old(self)@.bytes[k]
                }),
    {
        let base: usize = (address - self.start) as usize;
        let room: usize = (self.size as usize) - base;
        let n: usize = if data.len() < room {
            data.len()
        } else {
            room
        };
        let mut k: usize = 0;
        while k < n
            invariant
                k <= n,
                n <= data@.len(),
                n <= room,
                room == self.size - base,
                base + n <= self.bytes@.len(),
                self.bytes@.len() == old(self).bytes@.len(),
                self.start == old(self).start,
                self.size == old(self).size,
                self@.wf(),
                base == address - self.start,
                forall|j: int|
                    0 <= j < self.bytes@.len() ==> self.bytes@[j] == (if base <= j < base + k {
                        data@[j - base]
                    } else {
                        old(self).bytes@[j]
                    }),
            decreases n - k,
        {
            let b: u8 = data[k];
            self.bytes[base + k] = b;
            k = k + 1;
        }
    }

    /// Read up to `count` bytes starting at physical address `address`,
    /// clamped to the end of the memory.
    pub fn read(&self, address: u32, count: usize) -> (r: Vec<u8>)
        requires
            self@.wf(),
            self@.start <= address,
            address - self@.start <= self@.size,
        ensures
            r@.len() == (if count <= self@.size - (address - self@.start) {
                count as int
            } else {
                self@.size - (address - self@.start)
            }),
            forall|k: int| 0 <= k < r@.len() ==> r@[k] == self@.bytes[address - self@.start + k],
    {
        let base: usize = (address - self.start) as usize;
        let room: usize = (self.size as usize) - base;
        let n: usize = if count < room {
            count
        } else {
            room
        };
        let mut r: Vec<u8> = Vec::new();
        let mut k: usize = 0;
        while k < n
            invariant
                k <= n,
                self@.wf(),
                base + n <= self.bytes@.len(),
                base == address - self.start,
                r@.len() == k,
                n <= count,
                forall|j: int| 0 <= j < k ==> r@[j] == self.bytes@[base + j],
            decreases n - k,
        {
            r.push(self.bytes[base + k]);
            k = k + 1;
        }
        r
    }

    /// Memory-space read: the stored byte when the address is claimed.
    pub fn mem_read(&self, address: u32) -> (r: Option<u8>)
        requires
            self@.wf(),
        ensures
            r == (if self@.claims(address) {
                Some(self@.byte_at(address))
            } else {
                None::<u8>
            }),
    {
        if address >= self.start && address - self.start < self.size {
            Some(self.bytes[(address - self.start) as usize])
        } else {
            None
        }
    }

    /// Memory-space write: stores the byte when the address is claimed,
    /// otherwise absorbed.
    pub fn mem_write(&mut self, address: u32, data: u8)
        requires
            old(self)@.wf(),
        ensures
            final(self)@ == old(self)@.mem_write_spec(address, data),
            final(self)@.wf(),
    {
        if address >= self.start && address - self.start < self.size {
            self.bytes[(address - self.start) as usize] = data;
        }
        proof {
            assert(self@ =~= old(self)@.mem_write_spec(address, data));
        }
    }
}

} // verus!
