use vstd::prelude::*;

verus! {

/// A single readable and writable IO register at a fixed port address.
#[derive(Debug, PartialEq, Eq, Structural, Copy, Clone)]
pub struct Reg {
    pub val: u8,
    pub addr: u16,
}

impl Reg {
    pub fn new(val: u8, addr: u16) -> (r: Reg)
        ensures
            r == (Reg { val, addr }),
    {
        Reg { val, addr }
    }

    /// The current register contents.
    pub fn val(&self) -> (r: u8)
        ensures
            r == self.val,
    {
        self.val
    }

    /// IO read: the contents when the port matches, otherwise None.
    pub fn io_read(&self, address: u16) -> (r: Option<u8>)
        ensures
            r == (if address == self.addr {
                Some(self.val)
            } else {
                None::<u8>
            }),
    {
        if address == self.addr {
            Some(self.val)
        } else {
            None
        }
    }

    pub open spec fn io_write_spec(self, address: u16, data: u8) -> Reg {
        if address == self.addr {
            Reg { val: data, ..self }
        } else {
            self
        }
    }

    /// IO write: stores the byte when the port matches, otherwise absorbed.
    pub fn io_write(&mut self, address: u16, data: u8)
        ensures
            *final(self) == old(self).io_write_spec(address, data),
    {
        if address == self.addr {
            self.val = data;
        }
    }
}

} // verus!
