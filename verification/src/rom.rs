//! The 32 KiB cartridge ROM image: populated once by the host, read-only from
//! the CPU's side of the bus.

use vstd::prelude::*;

verus! {

/// Number of bytes in the ROM image.
pub open spec fn rom_len() -> int {
    0x8000
}

/// The byte image a load produces: the given bytes, zero-padded to 32 KiB and
/// truncated there.
pub open spec fn rom_image(bytes: Seq<u8>) -> Seq<u8> {
    Seq::new(0x8000, |i: int| if i < bytes.len() {
        bytes[i]
    } else {
        0
    })
}

/// The cartridge ROM: a fixed 32 KiB byte array and a cartridge-type tag.
pub struct ROM {
    pub data: Vec<u8>,
    pub r_type: u8,
}

impl ROM {
    /// The ROM buffer always holds exactly 32 KiB.
    pub open spec fn wf(&self) -> bool {
        self.data@.len() == rom_len()
    }

    /// A blank ROM: 32 KiB of zeroes.
    pub fn create_rom() -> (r: ROM)
        ensures
            r.wf(),
            r.r_type == 0,
            forall|i: int| 0 <= i < rom_len() ==> r.data@[i] == 0,
    {
        let data = vec![0u8; 0x8000];
        ROM { data, r_type: 0 }
    }

    /// Fill the ROM from a host-supplied byte image, zero-padding past its
    /// end and ignoring anything beyond 32 KiB.
    pub fn load(&mut self, bytes: &Vec<u8>)
        requires
            old(self).wf(),
        ensures
            final(self).wf(),
            final(self).data@ == rom_image(bytes@),
            final(self).r_type == old(self).r_type,
    {
        let mut i: usize = 0;
        while i < 0x8000
            invariant
                self.data@.len() == rom_len(),
                self.r_type == old(self).r_type,
                i <= 0x8000,
                forall|j: int| 0 <= j < i ==> self.data@[j] == rom_image(bytes@)[j],
            decreases 0x8000 - i,
        {
            if i < bytes.len() {
                self.data[i] = bytes[i];
            } else {
                self.data[i] = 0;
            }
            i = i + 1;
        }
        proof {
            assert(self.data@ =~= rom_image(bytes@));
        }
    }

    /// Read one ROM byte.
    pub fn get_mem(&self, loc: u16) -> (r: u8)
        requires
            self.wf(),
            loc < 0x8000,
        ensures
            r == self.data@[loc as int],
    {
        self.data[loc as usize]
    }
}

} // verus!
