//! Chip-specific constants: write-block bound, flash geometry, and the
//! allow-listed memory-mapped register ranges that direct register access is
//! restricted to.

use vstd::prelude::*;

verus! {

/// Largest data payload a single data-carrying command may declare.
pub const MAX_WRITE_BLOCK: u32 = 0x4000;

/// Granularity of a flash erase.
pub const FLASH_SECTOR_SIZE: u32 = 0x1000;

/// Largest frame the framer accumulates before declaring the frame lost.
pub const MAX_FRAME_LEN: usize = 0x4400;

/// An inclusive-start, exclusive-end address range.
#[derive(Clone, Copy, PartialEq, Eq, Structural, Debug)]
pub struct AddrRange {
    pub start: u32,
    pub end: u32,
}

/// The immutable per-chip table the dispatcher and flash engine consult.
pub struct TargetParams {
    /// Largest data payload a single data-carrying command may declare.
    pub max_write_block: u32,
    /// Granularity of a flash erase.
    pub sector_size: u32,
    /// Address ranges that `READ_REG` / `WRITE_REG` may touch.
    pub reg_ranges: Vec<AddrRange>,
}

/// `addr` falls in one of the allow-listed register ranges.
pub open spec fn spec_reg_allowed(ranges: Seq<AddrRange>, addr: u32) -> bool {
    exists|i: int| 0 <= i < ranges.len() && (#[trigger] ranges[i]).start <= addr < ranges[i].end
}

impl TargetParams {
    /// A well-formed table: non-degenerate geometry.
    pub open spec fn wf(&self) -> bool {
        &&& self.max_write_block > 0
        &&& self.max_write_block <= MAX_WRITE_BLOCK
        &&& self.sector_size > 0
    }

    /// The table of a generic chip variant: default geometry and a
    /// peripheral-register window typical of the supported family.
    pub fn generic() -> (r: TargetParams)
        ensures
            r.wf(),
            r.max_write_block == MAX_WRITE_BLOCK,
            r.sector_size == FLASH_SECTOR_SIZE,
            r.reg_ranges@ =~= seq![AddrRange { start: 0x3ff00000u32, end: 0x60002000u32 }],
    {
        let mut reg_ranges: Vec<AddrRange> = Vec::new();
        reg_ranges.push(AddrRange { start: 0x3ff00000, end: 0x60002000 });
        TargetParams { max_write_block: MAX_WRITE_BLOCK, sector_size: FLASH_SECTOR_SIZE, reg_ranges }
    }

    /// Whether direct register access at `addr` is allow-listed.
    pub fn reg_allowed(&self, addr: u32) -> (r: bool)
        ensures
            r == spec_reg_allowed(self.reg_ranges@, addr),
    {
        let mut i: usize = 0;
        while i < self.reg_ranges.len()
            invariant
                i <= self.reg_ranges@.len(),
                forall|j: int| 0 <= j < i ==> !((#[trigger] self.reg_ranges@[j]).start <= addr
                    < self.reg_ranges@[j].end),
            decreases self.reg_ranges@.len() - i,
        {
            let range = self.reg_ranges[i];
            if range.start <= addr && addr < range.end {
                return true;
            }
            i = i + 1;
        }
        false
    }
}

} // verus!
