//! The plainest bus: 64 KiB of memory, every address of it readable and writable.
use vstd::prelude::*;
use crate::iomap::IoMap;
use crate::iomap::keeps;
use crate::cpu::stack_is_ram;

verus! {

/// The number of addresses on the bus.
pub const ADDRESS_SPACE: usize = 0x10000;

/// 64 KiB of read-write memory.
#[derive(Debug)]
pub struct Ram {
    bytes: Vec<u8>,
}

impl Ram {
    #[verifier::type_invariant]
    spec fn full_size(self) -> bool {
        self.bytes@.len() == ADDRESS_SPACE
    }

    /// Memory that holds zero everywhere.
    pub fn new() -> (ram: Ram)
        ensures
            forall|address: u16| #[trigger] ram@[address] == 0,
    {
        let mut bytes: Vec<u8> = Vec::new();
        let mut n: usize = 0;
        while n < ADDRESS_SPACE
            invariant
                n <= ADDRESS_SPACE,
                bytes@.len() == n,
                forall|k: int| 0 <= k < n ==> bytes@[k] == 0,
            decreases ADDRESS_SPACE - n,
        {
            bytes.push(0);
            n += 1;
        }
        Ram { bytes }
    }

    /// Copies `image` into memory from `origin` upwards. What would lie above
    /// 0xFFFF is left out.
    pub fn load(&mut self, origin: u16, image: &Vec<u8>)
        ensures
            forall|address: u16| #[trigger]
                final(self)@[address] == (if origin <= address < origin + image@.len() {
                    image@[address - origin]
                } else {
                    old(self)@[address]
                }),
    {
        proof {
            use_type_invariant(&*self);
        }
        let mut k: usize = 0;
        while k < image.len() && k < ADDRESS_SPACE - origin as usize
            invariant
                self.bytes@.len() == ADDRESS_SPACE,
                k <= image@.len(),
                k <= ADDRESS_SPACE - origin,
                forall|j: int|
                    0 <= j < ADDRESS_SPACE ==> #[trigger] self.bytes@[j] == (if origin <= j < origin
                        + k {
                        image@[j - origin]
                    } else {
                        old(self).bytes@[j]
                    }),
            decreases image@.len() - k,
        {
            self.bytes[origin as usize + k] = image[k];
            k += 1;
        }
    }
}

impl IoMap for Ram {
    type Model = Map<u16, u8>;

    closed spec fn view(&self) -> Map<u16, u8> {
        Map::new(|address: u16| true, |address: u16| self.bytes@[address as int])
    }

    open spec fn read(model: Map<u16, u8>, address: u16) -> u8 {
        model[address]
    }

    open spec fn written(model: Map<u16, u8>, address: u16, byte: u8) -> Map<u16, u8> {
        model.insert(address, byte)
    }

    fn peek8(&self, address: u16) -> (byte: u8) {
        proof {
            use_type_invariant(self);
        }
        self.bytes[address as usize]
    }

    fn poke8(&mut self, address: u16, byte: u8) {
        proof {
            use_type_invariant(&*self);
        }
        self.bytes[address as usize] = byte;
        assert(self@ =~= Ram::written(old(self)@, address, byte));
    }
}

/// Every address of a `Ram` keeps what was written to it, and so the stack
/// page does.
pub proof fn ram_keeps_every_address(address: u16)
    ensures
        keeps::<Ram>(address),
        stack_is_ram::<Ram>(),
{
}

} // verus!
