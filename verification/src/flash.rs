//! The engine's model of the SPI flash array: a byte store that is erased to
//! an all-ones pattern sector by sector and programmed byte by byte. The
//! dispatcher performs every bounds check before touching it.

use vstd::prelude::*;

verus! {

/// The value every cell takes after an erase.
pub const ERASED_BYTE: u8 = 0xff;

/// A byte store standing for the SPI flash array.
pub struct Flash {
    mem: Vec<u8>,
}

/// The contents of `m` after `d` is stored at offset `a`.
pub open spec fn spec_store(m: Seq<u8>, a: int, d: Seq<u8>) -> Seq<u8> {
    Seq::new(m.len(), |i: int| if a <= i < a + d.len() { d[i - a] } else { m[i] })
}

/// The contents of `m` after `n` cells from offset `a` are erased.
pub open spec fn spec_erase(m: Seq<u8>, a: int, n: int) -> Seq<u8> {
    Seq::new(m.len(), |i: int| if a <= i < a + n { ERASED_BYTE } else { m[i] })
}

impl Flash {
    /// The byte at each offset of the array.
    pub closed spec fn view(&self) -> Seq<u8> {
        self.mem@
    }

    /// A fresh array of `size` cells, all erased.
    pub fn new(size: usize) -> (r: Flash)
        ensures
            r@.len() == size,
            r@ =~= Seq::new(size as nat, |i: int| ERASED_BYTE),
    {
        let mut mem: Vec<u8> = Vec::new();
        let mut i: usize = 0;
        while i < size
            invariant
                i <= size,
                mem@.len() == i,
                forall|j: int| 0 <= j < i ==> mem@[j] == ERASED_BYTE,
            decreases size - i,
        {
            mem.push(ERASED_BYTE);
            i = i + 1;
        }
        Flash { mem }
    }

    /// Number of cells in the array.
    pub fn len(&self) -> (r: usize)
        ensures
            r == self@.len(),
    {
        self.mem.len()
    }

    /// Programs `data` at `addr`, leaving every other cell unchanged.
    pub fn write(&mut self, addr: usize, data: &[u8])
        requires
            addr + data@.len() <= old(self)@.len(),
        ensures
            final(self)@ =~= spec_store(old(self)@, addr as int, data@),
            final(self)@.len() == old(self)@.len(),
            final(self)@.subrange(addr as int, addr + data@.len()) =~= data@,
    {
        let n = self.mem.len();
        let mut i: usize = 0;
        while i < data.len()
            invariant
                i <= data@.len(),
                addr + data@.len() <= self@.len(),
                self@.len() == n,
                self@.len() == old(self)@.len(),
                forall|j: int| 0 <= j < i ==> self@[addr + j] == data@[j],
                forall|j: int| 0 <= j < self@.len() && !(addr <= j < addr + i) ==> self@[j]
                    == old(self)@[j],
            decreases data@.len() - i,
        {
            self.mem[addr + i] = data[i];
            i = i + 1;
        }
    }

    /// Erases `count` cells from `addr`, leaving every other cell unchanged.
    pub fn erase(&mut self, addr: usize, count: usize)
        requires
            addr + count <= old(self)@.len(),
        ensures
            final(self)@ =~= spec_erase(old(self)@, addr as int, count as int),
            final(self)@.len() == old(self)@.len(),
    {
        let n = self.mem.len();
        let mut i: usize = 0;
        while i < count
            invariant
                i <= count,
                addr + count <= self@.len(),
                self@.len() == n,
                self@.len() == old(self)@.len(),
                forall|j: int| 0 <= j < i ==> #[trigger] self@[addr + j] == ERASED_BYTE,
                forall|j: int| 0 <= j < self@.len() && !(addr <= j < addr + i) ==> self@[j]
                    == old(self)@[j],
            decreases count - i,
        {
            self.mem[addr + i] = ERASED_BYTE;
            i = i + 1;
        }
        proof {
            let post = spec_erase(old(self)@, addr as int, count as int);
            assert forall|j: int| 0 <= j < self@.len() implies self@[j] == post[j] by {
                if addr <= j < addr + count {
                    assert(self@[addr + (j - addr)] == ERASED_BYTE);
                }
            }
        }
    }

    /// Reads `count` cells starting at `addr`.
    pub fn read(&self, addr: usize, count: usize) -> (r: Vec<u8>)
        requires
            addr + count <= self@.len(),
        ensures
            r@ =~= self@.subrange(addr as int, addr + count),
    {
        let n = self.mem.len();
        let mut out: Vec<u8> = Vec::new();
        let mut i: usize = 0;
        while i < count
            invariant
                i <= count,
                addr + count <= self@.len(),
                self@.len() == n,
                out@.len() == i,
                forall|j: int| 0 <= j < i ==> out@[j] == self@[addr + j],
            decreases count - i,
        {
            out.push(self.mem[addr + i]);
            i = i + 1;
        }
        out
    }
}

} // verus!
