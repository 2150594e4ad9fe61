//! Register windows: a contiguous run of 4-byte hardware register slots
//! reached through a mapped range of a device file, plus the layout
//! computation that picks where that range is mapped.

use vstd::prelude::*;

verus! {

/// Mapping parameters for a register window: where the mapping starts in
/// the device file, how long it is, and where the register block sits
/// inside the mapped range.
pub struct MapLayout {
    pub map_offset: usize,
    pub map_len: usize,
    pub reg_offset: usize,
}

/// Chooses the mapping parameters for the two supported addressing modes.
///
/// With an explicit `map_size` (size-constrained mode, required by device
/// backends that demand the mapping match a fixed resource size) the whole
/// window is mapped at file offset 0 and the register block sits at
/// `device_offset` inside it.  Without one (offset-relative mode) the
/// window is mapped at `device_offset + 0x1000` with the caller-supplied
/// page length, and the register block sits at the start of the window.
pub fn map_layout(device_offset: usize, map_size: Option<usize>, page_len: usize) -> (r: MapLayout)
    requires
        device_offset + 0x1000 <= usize::MAX,
    ensures
        (match map_size {
            Some(s) => r.map_offset == 0 && r.map_len == s && r.reg_offset == device_offset,
            None => r.map_offset == device_offset + 0x1000 && r.map_len == page_len
                && r.reg_offset == 0,
        }),
{
    match map_size {
        Some(s) => MapLayout { map_offset: 0, map_len: s, reg_offset: device_offset },
        None => MapLayout {
            map_offset: device_offset + 0x1000,
            map_len: page_len,
            reg_offset: 0,
        },
    }
}

/// A register window: owned storage for a run of 32-bit register slots,
/// one slot per 4 bytes.  Every access is bounds-checked against the
/// window length, so no accessor can reach outside the window.
pub struct RegisterWindow {
    words: Vec<u32>,
}

impl View for RegisterWindow {
    type V = Seq<u32>;

    closed spec fn view(&self) -> Seq<u32> {
        self.words@
    }
}

impl RegisterWindow {
    /// Length of the window in bytes.
    pub open spec fn byte_len(&self) -> int {
        self@.len() * 4 as int
    }

    /// A byte offset names a valid 4-byte-aligned slot inside the window.
    pub open spec fn slot_ok(&self, offset: int) -> bool {
        &&& offset % 4 == 0
        &&& 0 <= offset
        &&& offset + 4 <= self.byte_len()
    }

    /// Opens a window of `byte_len` bytes with every slot reading zero.
    pub fn open_window(byte_len: usize) -> (r: Self)
        requires
            byte_len % 4 == 0,
        ensures
            r@.len() == byte_len / 4,
            forall|i: int| 0 <= i < r@.len() ==> r@[i] == 0,
    {
        let words: Vec<u32> = vec![0u32; byte_len / 4];
        RegisterWindow { words }
    }

    /// Reads the 4-byte slot at `offset`.
    pub fn read_reg(&self, offset: usize) -> (r: u32)
        requires
            self.slot_ok(offset as int),
        ensures
            r == self@[offset as int / 4],
    {
        self.words[offset / 4]
    }

    /// Writes the 4-byte slot at `offset`; every other slot is unchanged.
    pub fn write_reg(&mut self, offset: usize, value: u32)
        requires
            old(self).slot_ok(offset as int),
        ensures
            final(self)@ == old(self)@.update(offset as int / 4, value),
    {
        self.words[offset / 4] = value;
    }
}

} // verus!
