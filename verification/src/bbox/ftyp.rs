//! The `ftyp` box: major brand, minor version, and the list of compatible
//! brands that fills the rest of the body.

use crate::bbox::header::BoxHeader;
use crate::bit::{be32, BitStream, Byte4};
use crate::HeifError;
use vstd::prelude::*;

verus! {

/// The brand at index `i` of the brand list that starts at byte `q` of `d`.
pub open spec fn spec_brand_at(d: Seq<u8>, q: int, i: int) -> Byte4 {
    Byte4(d[q + 4 * i], d[q + 4 * i + 1], d[q + 4 * i + 2], d[q + 4 * i + 3])
}

/// How a file-type box reflects a whole `ftyp` body: the tail after the
/// brand and version is a whole number of four-byte brands, read in order.
pub open spec fn spec_ftyp_body_ok(b: Seq<u8>) -> bool {
    b.len() >= 8 && (b.len() - 8) % 4 == 0
}

/// The file-type box.
#[derive(Debug)]
pub struct FileTypeBox {
    pub box_header: BoxHeader,
    pub major_brand: Byte4,
    pub minor_version: u32,
    pub compatible_brands: Vec<Byte4>,
}

impl Default for FileTypeBox {
    fn default() -> (r: FileTypeBox)
        ensures
            r.box_header.box_size == 8,
            r.major_brand == (Byte4(0, 0, 0, 0)),
            r.minor_version == 0,
            r.compatible_brands@ == Seq::<Byte4>::empty(),
    {
        FileTypeBox {
            box_header: BoxHeader::new(Byte4(0x66, 0x74, 0x79, 0x70)),
            major_brand: Byte4(0, 0, 0, 0),
            minor_version: 0,
            compatible_brands: Vec::new(),
        }
    }
}

impl FileTypeBox {
    /// How this box reflects a whole parsed `ftyp` body.
    pub open spec fn matches_body(&self, b: Seq<u8>) -> bool {
        &&& spec_ftyp_body_ok(b)
        &&& self.major_brand == (Byte4(b[0], b[1], b[2], b[3]))
        &&& self.minor_version == be32(b, 4)
        &&& self.compatible_brands@.len() == (b.len() - 8) / 4
        &&& forall|i: int|
            0 <= i < self.compatible_brands@.len() ==> #[trigger] self.compatible_brands@[i]
                == spec_brand_at(b, 8, i)
    }

    /// Reads the box body: a major brand, a 32-bit minor version, then
    /// compatible brands until the body ends.  A body whose tail is not a
    /// whole number of four-byte brands runs off the end of the stream.
    pub fn new(stream: &mut BitStream, box_header: BoxHeader) -> (r: Result<
        FileTypeBox,
        HeifError,
    >)
        requires
            old(stream).wf(),
            old(stream).bit_offset == 0,
        ensures
            final(stream).inner@ == old(stream).inner@,
            final(stream).wf(),
            final(stream).bit_offset == 0,
            ({
                let d = old(stream).inner@;
                let p = old(stream).byte_offset as int;
                let left = d.len() - p;
                match r {
                    Ok(b) => {
                        &&& left >= 8
                        &&& (left - 8) % 4 == 0
                        &&& b.box_header == box_header
                        &&& b.major_brand == (Byte4(d[p], d[p + 1], d[p + 2], d[p + 3]))
                        &&& b.minor_version == be32(d, p + 4)
                        &&& b.compatible_brands@.len() == (left - 8) / 4
                        &&& (forall|i: int|
                            0 <= i < b.compatible_brands@.len() ==> b.compatible_brands@[i]
                                == spec_brand_at(d, p + 8, i))
                        &&& final(stream).byte_offset == d.len()
                    },
                    Err(e) => {
                        &&& e == HeifError::EndOfStream
                        &&& (left < 8 || (left - 8) % 4 != 0)
                    },
                }
            }),
    {
        let ghost d = old(stream).inner@;
        let ghost p = old(stream).byte_offset as int;
        let major_brand = stream.read_4bytes()?;
        let minor_version = stream.read_4bytes()?.to_u32();
        let mut compatible_brands: Vec<Byte4> = Vec::new();
        while !stream.is_eof()
            invariant
                d == old(stream).inner@,
                p == old(stream).byte_offset as int,
                stream.wf(),
                stream.bit_offset == 0,
                stream.inner@ == d,
                d.len() - p >= 8,
                stream.byte_offset == p + 8 + 4 * compatible_brands@.len(),
                forall|i: int|
                    0 <= i < compatible_brands@.len() ==> compatible_brands@[i] == spec_brand_at(
                        d,
                        p + 8,
                        i,
                    ),
            decreases d.len() - stream.byte_offset,
        {
            let brand = stream.read_4bytes()?;
            compatible_brands.push(brand);
        }
        Ok(FileTypeBox { box_header, major_brand, minor_version, compatible_brands })
    }

    pub fn major_brand(&self) -> (r: &Byte4)
        ensures
            r == self.major_brand,
    {
        &self.major_brand
    }

    pub fn set_major_brand(&mut self, brand: Byte4)
        ensures
            *final(self) == (FileTypeBox { major_brand: brand, ..*old(self) }),
    {
        self.major_brand = brand;
    }

    pub fn minor_version(&self) -> (r: u32)
        ensures
            r == self.minor_version,
    {
        self.minor_version
    }

    pub fn set_minor_version(&mut self, ver: u32)
        ensures
            *final(self) == (FileTypeBox { minor_version: ver, ..*old(self) }),
    {
        self.minor_version = ver;
    }

    pub fn compatible_brands(&self) -> (r: &Vec<Byte4>)
        ensures
            r == self.compatible_brands,
    {
        &self.compatible_brands
    }

    /// True exactly when the brand is among the compatible brands.
    pub fn is_compatible_brand(&self, brand: &Byte4) -> (r: bool)
        ensures
            r == self.compatible_brands@.contains(*brand),
    {
        let n = self.compatible_brands.len();
        let mut i: usize = 0;
        while i < n
            invariant
                n == self.compatible_brands@.len(),
                i <= n,
                forall|j: int| 0 <= j < i ==> self.compatible_brands@[j] != *brand,
            decreases n - i,
        {
            if self.compatible_brands[i] == *brand {
                proof {
                    assert(self.compatible_brands@.contains(*brand));
                }
                return true;
            }
            i = i + 1;
        }
        false
    }

    /// Adds the brand unless it is already among the compatible brands.
    pub fn add_compatible_brand(&mut self, brand: Byte4)
        ensures
            old(self).compatible_brands@.contains(brand) ==> *final(self) == *old(self),
            !old(self).compatible_brands@.contains(brand) ==> {
                &&& final(self).compatible_brands@ == old(self).compatible_brands@.push(brand)
                &&& final(self).box_header == old(self).box_header
                &&& final(self).major_brand == old(self).major_brand
                &&& final(self).minor_version == old(self).minor_version
            },
    {
        if !self.is_compatible_brand(&brand) {
            self.compatible_brands.push(brand);
        }
    }
}

} // verus!
