//! A dense voxel chunk: a cube of blocks with flat addressing.
//!
//! A chunk holds `CHUNK_SIZE` cubed blocks in one flat array, addressed by
//! `x + y * CHUNK_SIZE + z * CHUNK_SIZE * CHUNK_SIZE`. Reads and writes
//! outside the array are answered with `None` or ignored, never a fault.

use vstd::prelude::*;

verus! {

/// The edge length of a chunk, in blocks.
pub const CHUNK_SIZE: usize = 16;

/// The number of blocks in a chunk: `CHUNK_SIZE` cubed.
pub const CHUNK_VOLUME: usize = 4096;

/// One voxel block.
pub type Block = u64;

/// The flat index of the block at `(x, y, z)`.
pub open spec fn chunk_index(x: usize, y: usize, z: usize) -> int {
    x + y * CHUNK_SIZE + z * CHUNK_SIZE * CHUNK_SIZE
}

/// A dense voxel chunk. The block storage may be absent; every access then
/// answers as out of range.
pub struct Chunk {
    pub data: Option<Vec<Block>>,
}

impl Chunk {
    /// The block a read of `(x, y, z)` answers: the block at the flat
    /// index, if storage is present and the index is within it.
    pub open spec fn spec_get(self, x: usize, y: usize, z: usize) -> Option<Block> {
        match self.data {
            Some(d) => {
                if chunk_index(x, y, z) < d@.len() {
                    Some(d@[chunk_index(x, y, z)])
                } else {
                    None
                }
            },
            None => None,
        }
    }

    /// Creates a chunk with every block zero.
    pub fn new() -> (r: Self)
        ensures
            r.data matches Some(d) && d@ == Seq::new(CHUNK_VOLUME as nat, |i: int| 0 as Block),
    {
        Self::default()
    }

    /// A shared reference to the block at `(x, y, z)`, or `None` out of
    /// range.
    pub fn get_ref(&self, x: usize, y: usize, z: usize) -> (r: Option<&Block>)
        ensures
            match r {
                Some(b) => self.spec_get(x, y, z) == Some(*b),
                None => self.spec_get(x, y, z) is None,
            },
    {
        match &self.data {
            Some(d) => {
                let xi = x as u128;
                let yi = y as u128;
                let zi = z as u128;
                let flat = xi + yi * (CHUNK_SIZE as u128) + zi * (CHUNK_SIZE as u128) * (
                CHUNK_SIZE as u128);
                if flat < d.len() as u128 {
                    let idx = flat as usize;
                    Some(&d[idx])
                } else {
                    None
                }
            },
            None => None,
        }
    }

    /// A mutable reference to the block at `(x, y, z)`, or `None` out of
    /// range; out of range, the chunk is unchanged.
    pub fn get_ref_mut(&mut self, x: usize, y: usize, z: usize) -> (r: Option<&mut Block>)
        ensures
            match r {
                Some(b) => {
                    &&& old(self).spec_get(x, y, z) == Some(*b)
                    &&& final(self).data matches Some(d2) && match old(self).data {
                        Some(d) => d2@ == d@.update(chunk_index(x, y, z), *final(b)),
                        None => false,
                    }
                },
                None => {
                    &&& old(self).spec_get(x, y, z) is None
                    &&& *final(self) == *old(self)
                },
            },
    {
        match &mut self.data {
            Some(d) => {
                let xi = x as u128;
                let yi = y as u128;
                let zi = z as u128;
                let flat = xi + yi * (CHUNK_SIZE as u128) + zi * (CHUNK_SIZE as u128) * (
                CHUNK_SIZE as u128);
                if flat < d.len() as u128 {
                    let idx = flat as usize;
                    Some(&mut d[idx])
                } else {
                    None
                }
            },
            None => None,
        }
    }

    /// The block at `(x, y, z)`, or `None` out of range.
    pub fn get(&self, x: usize, y: usize, z: usize) -> (r: Option<Block>)
        ensures
            r == self.spec_get(x, y, z),
    {
        match self.get_ref(x, y, z) {
            Some(b) => Some(*b),
            None => None,
        }
    }

    /// Writes the block at `(x, y, z)`; a write out of range is ignored.
    pub fn set(&mut self, x: usize, y: usize, z: usize, block: Block)
        ensures
            match old(self).spec_get(x, y, z) {
                Some(_) => final(self).data matches Some(d2) && match old(self).data {
                    Some(d) => d2@ == d@.update(chunk_index(x, y, z), block),
                    None => false,
                },
                None => *final(self) == *old(self),
            },
    {
        if let Some(r) = self.get_ref_mut(x, y, z) {
            *r = block;
        }
    }
}

impl Default for Chunk {
    /// Creates a chunk with every block zero.
    fn default() -> (r: Self)
        ensures
            r.data matches Some(d) && d@ == Seq::new(CHUNK_VOLUME as nat, |i: int| 0 as Block),
    {
        let mut d: Vec<Block> = Vec::new();
        let mut i: usize = 0;
        while i < CHUNK_VOLUME
            invariant
                i <= CHUNK_VOLUME,
                d@.len() == i,
                forall|j: int| 0 <= j < i ==> d@[j] == 0,
            decreases CHUNK_VOLUME - i,
        {
            d.push(0);
            i = i + 1;
        }
        proof {
            assert(d@ =~= Seq::new(CHUNK_VOLUME as nat, |i: int| 0 as Block));
        }
        Chunk { data: Some(d) }
    }
}

} // verus!
