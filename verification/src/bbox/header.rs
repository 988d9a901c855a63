//! Generic box headers: the plain header with its 32-bit size, large-size
//! and `uuid` user-type forms, and the full-box header that adds a version
//! byte and 24-bit flags.

use crate::bit::{be24, be32, be64, BitStream, Byte4};
use crate::fourcc;
use crate::HeifError;
use vstd::prelude::*;

verus! {

/// The box type encoded at byte `p` of `d` (the four bytes after the 32-bit
/// size).
pub open spec fn spec_box_type(d: Seq<u8>, p: int) -> Byte4 {
    Byte4(d[p + 4], d[p + 5], d[p + 6], d[p + 7])
}

/// True when the header at byte `p` of `d` declares a large (64-bit) size.
pub open spec fn spec_is_large(d: Seq<u8>, p: int) -> bool {
    be32(d, p) == 1
}

/// The declared box size at byte `p` of `d`: the 32-bit size, or the 64-bit
/// large size when the 32-bit field holds 1.
pub open spec fn spec_box_size(d: Seq<u8>, p: int) -> int {
    if spec_is_large(d, p) {
        be64(d, p + 8)
    } else {
        be32(d, p)
    }
}

/// How many bytes the header at byte `p` of `d` occupies: 8, plus 8 for a
/// large size, plus 16 for a `uuid` user type.
pub open spec fn spec_header_size(d: Seq<u8>, p: int) -> int {
    8 + (if spec_is_large(d, p) {
        8int
    } else {
        0int
    }) + (if spec_box_type(d, p).value() == fourcc::UUID {
        16int
    } else {
        0int
    })
}

/// True when a child box can be carved out at byte `p` of `d`: its header
/// fits, its declared size is nonzero, covers the header, and stays inside
/// `d`.
pub open spec fn spec_child_ok(d: Seq<u8>, p: int) -> bool {
    &&& d.len() - p >= spec_header_size(d, p)
    &&& spec_box_size(d, p) != 0
    &&& spec_box_size(d, p) >= spec_header_size(d, p)
    &&& p + spec_box_size(d, p) <= d.len()
}

/// The error that carving a child box at byte `p` of `d` reports when
/// `spec_child_ok` does not hold: a header that does not fit ends the
/// stream, anything else is a malformed box.
pub open spec fn spec_child_err(d: Seq<u8>, p: int) -> HeifError {
    if d.len() - p < spec_header_size(d, p) {
        HeifError::EndOfStream
    } else {
        HeifError::MalformedBox
    }
}

/// The body bytes of the child box at byte `p` of `d`.
pub open spec fn spec_child_body(d: Seq<u8>, p: int) -> Seq<u8> {
    d.subrange(p + spec_header_size(d, p), p + spec_box_size(d, p))
}

/// The first byte after the child box at byte `p` of `d`.
pub open spec fn spec_child_end(d: Seq<u8>, p: int) -> int {
    p + spec_box_size(d, p)
}

/// True when reading just a box header at byte `p` of `d` succeeds: the
/// header fits and the declared size is zero or at least the header size.
pub open spec fn spec_header_ok(d: Seq<u8>, p: int) -> bool {
    &&& d.len() - p >= spec_header_size(d, p)
    &&& (spec_box_size(d, p) == 0 || spec_box_size(d, p) >= spec_header_size(d, p))
}

/// True when `h` is the full-box header read at byte `p` of `d` on top of
/// the already-parsed generic header `bh`: the generic fields carry over and
/// the version byte and 24-bit flags come from the four bytes at `p`.
pub open spec fn spec_full_from(h: FullBoxHeader, bh: BoxHeader, d: Seq<u8>, p: int) -> bool {
    &&& h.box_size == bh.box_size
    &&& h.box_type == bh.box_type
    &&& h.user_type == bh.user_type
    &&& h.is_large == bh.is_large
    &&& h.version == d[p]
    &&& h.flags == be24(d, p + 1)
}

/// A generic box header: declared size, type tag, optional `uuid` user type,
/// and whether the size was encoded in 64 bits.
#[derive(Debug, Default)]
pub struct BoxHeader {
    pub box_size: u64,
    pub box_type: Byte4,
    pub user_type: Vec<u8>,
    pub is_large: bool,
}

impl BoxHeader {
    /// The size in bytes that this header occupies in the stream.
    pub open spec fn header_size_spec(&self) -> int {
        8 + (if self.is_large {
            8int
        } else {
            0int
        }) + (if self.box_type.value() == fourcc::UUID {
            16int
        } else {
            0int
        })
    }

    /// A parsed header declares either a whole-remainder box (size 0) or a
    /// size that covers at least the header itself.
    pub open spec fn wf(&self) -> bool {
        self.box_size == 0 || self.box_size >= self.header_size_spec()
    }

    /// The declared size of the box body: what the box size declares beyond
    /// the header itself.
    pub open spec fn body_size_spec(&self) -> int {
        self.box_size - self.header_size_spec()
    }

    pub fn new(box_type: Byte4) -> (r: BoxHeader)
        ensures
            r.box_size == 8,
            r.box_type == box_type,
            r.user_type@ == Seq::<u8>::empty(),
            !r.is_large,
    {
        BoxHeader { box_size: 8, box_type, user_type: Vec::new(), is_large: false }
    }

    /// Reads a box header: a 32-bit size and a four-byte type, then a 64-bit
    /// size when the 32-bit field holds 1, then a 16-byte user type when the
    /// type is `uuid`.  A declared size below the header's own size is
    /// malformed, except the whole-remainder size 0.
    pub fn from(stream: &mut BitStream) -> (r: Result<BoxHeader, HeifError>)
        requires
            old(stream).wf(),
            old(stream).bit_offset == 0,
        ensures
            final(stream).inner@ == old(stream).inner@,
            final(stream).wf(),
            final(stream).bit_offset == 0,
            ({
                let d = old(stream).inner@;
                let p = old(stream).byte_offset as int;
                let left = d.len() - p;
                match r {
                    Ok(h) => {
                        &&& left >= spec_header_size(d, p)
                        &&& h.box_size == spec_box_size(d, p)
                        &&& h.box_type == spec_box_type(d, p)
                        &&& h.is_large == spec_is_large(d, p)
                        &&& h.user_type@ == if spec_box_type(d, p).value() == fourcc::UUID {
                            d.subrange(p + spec_header_size(d, p) - 16, p + spec_header_size(d, p))
                        } else {
                            Seq::<u8>::empty()
                        }
                        &&& h.wf()
                        &&& h.header_size_spec() == spec_header_size(d, p)
                        &&& final(stream).byte_offset == p + spec_header_size(d, p)
                    },
                    Err(e) => {
                        ||| (e == HeifError::EndOfStream && left < spec_header_size(d, p))
                        ||| (e == HeifError::MalformedBox && left >= spec_header_size(d, p)
                            && spec_box_size(d, p) != 0 && spec_box_size(d, p) < spec_header_size(
                            d,
                            p,
                        ))
                    },
                }
            }),
    {
        let ghost d = old(stream).inner@;
        let ghost p = old(stream).byte_offset as int;
        let first = stream.read_4bytes()?;
        let box_type = stream.read_4bytes()?;
        let mut box_size: u64 = first.to_u32() as u64;
        let mut is_large = false;
        if box_size == 1 {
            box_size = stream.read_8bytes()?.to_u64();
            is_large = true;
        }
        let mut user_type: Vec<u8> = Vec::new();
        if box_type.to_u32() == fourcc::UUID {
            user_type = stream.read_bytes(16)?;
        }
        let header = BoxHeader { box_size, box_type, user_type, is_large };
        let hs = header.header_size();
        if box_size != 0 && box_size < hs as u64 {
            return Err(HeifError::MalformedBox);
        }
        Ok(header)
    }

    /// The size in bytes of the header as encoded: 8, plus 8 when large,
    /// plus 16 for a `uuid` user type.
    pub fn header_size(&self) -> (r: u8)
        ensures
            r == self.header_size_spec(),
    {
        let mut s: u8 = 8;
        if self.is_large {
            s = s + 8;
        }
        if self.box_type.to_u32() == fourcc::UUID {
            s = s + 16;
        }
        s
    }

    /// The declared size of the box.
    pub fn box_size(&self) -> (r: u64)
        ensures
            r == self.box_size,
    {
        self.box_size
    }

    /// The declared body size: together with the header size it gives back
    /// exactly the declared box size.
    pub fn body_size(&self) -> (r: u64)
        requires
            self.box_size >= self.header_size_spec(),
        ensures
            r == self.body_size_spec(),
            r + self.header_size_spec() == self.box_size,
    {
        self.box_size - self.header_size() as u64
    }

    pub fn box_type(&self) -> (r: &Byte4)
        ensures
            r == self.box_type,
    {
        &self.box_type
    }

    pub fn set_box_type(&mut self, b: Byte4)
        ensures
            *final(self) == (BoxHeader { box_type: b, ..*old(self) }),
    {
        self.box_type = b;
    }

    pub fn set_box_size(&mut self, s: u64)
        ensures
            *final(self) == (BoxHeader { box_size: s, ..*old(self) }),
    {
        self.box_size = s;
    }

    pub fn user_type(&self) -> (r: &Vec<u8>)
        ensures
            r == self.user_type,
    {
        &self.user_type
    }

    /// Sets the user type and stamps the box type to `uuid` to keep the two
    /// coherent.
    pub fn set_user_type(&mut self, u: Vec<u8>)
        ensures
            final(self).user_type == u,
            final(self).box_type.value() == fourcc::UUID,
            final(self).box_size == old(self).box_size,
            final(self).is_large == old(self).is_large,
    {
        self.box_type = Byte4(0x75, 0x75, 0x69, 0x64);
        self.user_type = u;
    }

    pub fn is_large(&self) -> (r: bool)
        ensures
            r == self.is_large,
    {
        self.is_large
    }

    pub fn set_large(&mut self)
        ensures
            *final(self) == (BoxHeader { is_large: true, ..*old(self) }),
    {
        self.is_large = true;
    }
}

/// A full-box header: a generic header followed by a version byte and
/// 24-bit flags.
#[derive(Debug, Default)]
pub struct FullBoxHeader {
    pub box_size: u64,
    pub box_type: Byte4,
    pub user_type: Vec<u8>,
    pub is_large: bool,
    pub version: u8,
    pub flags: u32,
}

impl FullBoxHeader {
    /// The size in bytes that this header occupies in the stream: the
    /// generic header plus the four version-and-flags bytes.
    pub open spec fn header_size_spec(&self) -> int {
        8 + (if self.is_large {
            8int
        } else {
            0int
        }) + (if self.box_type.value() == fourcc::UUID {
            16int
        } else {
            0int
        }) + 4
    }

    pub fn new(box_type: Byte4, version: u8, flags: u32) -> (r: FullBoxHeader)
        ensures
            r.box_size == 8,
            r.box_type == box_type,
            r.user_type@ == Seq::<u8>::empty(),
            !r.is_large,
            r.version == version,
            r.flags == flags,
    {
        FullBoxHeader {
            box_size: 8,
            box_type,
            user_type: Vec::new(),
            is_large: false,
            version,
            flags,
        }
    }

    /// Reads the version byte and 24-bit flags that follow a generic box
    /// header, and carries the generic header's fields over.
    pub fn from(stream: &mut BitStream, box_header: BoxHeader) -> (r: Result<
        FullBoxHeader,
        HeifError,
    >)
        requires
            old(stream).wf(),
            old(stream).bit_offset == 0,
        ensures
            final(stream).inner@ == old(stream).inner@,
            final(stream).wf(),
            final(stream).bit_offset == 0,
            ({
                let d = old(stream).inner@;
                let p = old(stream).byte_offset as int;
                match r {
                    Ok(h) => {
                        &&& d.len() - p >= 4
                        &&& h.box_size == box_header.box_size
                        &&& h.box_type == box_header.box_type
                        &&& h.user_type == box_header.user_type
                        &&& h.is_large == box_header.is_large
                        &&& h.version == d[p]
                        &&& h.flags == be24(d, p + 1)
                        &&& final(stream).byte_offset == p + 4
                    },
                    Err(e) => e == HeifError::EndOfStream && d.len() - p < 4,
                }
            }),
    {
        let word = stream.read_4bytes()?;
        let version = word.0;
        let flags: u32 = (word.1 as u32) * 0x1_0000 + (word.2 as u32) * 0x100 + (word.3 as u32);
        Ok(
            FullBoxHeader {
                box_size: box_header.box_size,
                box_type: box_header.box_type,
                user_type: box_header.user_type,
                is_large: box_header.is_large,
                version,
                flags,
            },
        )
    }

    /// The size in bytes of the full header as encoded.
    pub fn header_size(&self) -> (r: u8)
        ensures
            r == self.header_size_spec(),
    {
        let mut s: u8 = 8;
        if self.is_large {
            s = s + 8;
        }
        if self.box_type.to_u32() == fourcc::UUID {
            s = s + 16;
        }
        s + 4
    }

    pub fn box_size(&self) -> (r: u64)
        ensures
            r == self.box_size,
    {
        self.box_size
    }

    /// The declared body size beyond the full header.
    pub fn body_size(&self) -> (r: u64)
        requires
            self.box_size >= self.header_size_spec(),
        ensures
            r == self.box_size - self.header_size_spec(),
            r + self.header_size_spec() == self.box_size,
    {
        self.box_size - self.header_size() as u64
    }

    pub fn box_type(&self) -> (r: &Byte4)
        ensures
            r == self.box_type,
    {
        &self.box_type
    }

    pub fn set_box_type(&mut self, b: Byte4)
        ensures
            *final(self) == (FullBoxHeader { box_type: b, ..*old(self) }),
    {
        self.box_type = b;
    }

    pub fn set_box_size(&mut self, s: u64)
        ensures
            *final(self) == (FullBoxHeader { box_size: s, ..*old(self) }),
    {
        self.box_size = s;
    }

    pub fn user_type(&self) -> (r: &Vec<u8>)
        ensures
            r == self.user_type,
    {
        &self.user_type
    }

    /// Sets the user type and stamps the box type to `uuid` to keep the two
    /// coherent.
    pub fn set_user_type(&mut self, u: Vec<u8>)
        ensures
            final(self).user_type == u,
            final(self).box_type.value() == fourcc::UUID,
            final(self).box_size == old(self).box_size,
            final(self).is_large == old(self).is_large,
            final(self).version == old(self).version,
            final(self).flags == old(self).flags,
    {
        self.box_type = Byte4(0x75, 0x75, 0x69, 0x64);
        self.user_type = u;
    }

    pub fn is_large(&self) -> (r: bool)
        ensures
            r == self.is_large,
    {
        self.is_large
    }

    pub fn set_large(&mut self)
        ensures
            *final(self) == (FullBoxHeader { is_large: true, ..*old(self) }),
    {
        self.is_large = true;
    }

    pub fn version(&self) -> (r: u8)
        ensures
            r == self.version,
    {
        self.version
    }

    pub fn set_version(&mut self, ver: u8)
        ensures
            *final(self) == (FullBoxHeader { version: ver, ..*old(self) }),
    {
        self.version = ver;
    }

    pub fn flags(&self) -> (r: u32)
        ensures
            r == self.flags,
    {
        self.flags
    }

    pub fn set_flags(&mut self, flags: u32)
        ensures
            *final(self) == (FullBoxHeader { flags, ..*old(self) }),
    {
        self.flags = flags;
    }
}

impl BitStream {
    /// Returns a sub-stream over the declared body of `header`: the next
    /// `box_size - header_size` bytes.  A body that exceeds what remains in
    /// the stream, or a size-0 header inside a bounded stream, is a
    /// malformed box.
    pub fn extract_from(&mut self, header: &BoxHeader) -> (r: Result<BitStream, HeifError>)
        requires
            old(self).wf(),
            old(self).bit_offset == 0,
            header.wf(),
        ensures
            final(self).inner@ == old(self).inner@,
            final(self).wf(),
            final(self).bit_offset == 0,
            ({
                let d = old(self).inner@;
                let p = old(self).byte_offset as int;
                match r {
                    Ok(ex) => {
                        &&& header.box_size != 0
                        &&& header.body_size_spec() <= d.len() - p
                        &&& ex.inner@ == d.subrange(p, p + header.body_size_spec())
                        &&& ex.byte_offset == 0
                        &&& ex.bit_offset == 0
                        &&& ex.wf()
                        &&& final(self).byte_offset == p + header.body_size_spec()
                    },
                    Err(e) => {
                        &&& e == HeifError::MalformedBox
                        &&& (header.box_size == 0 || header.body_size_spec() > d.len() - p)
                        &&& final(self).same_as(old(self))
                    },
                }
            }),
    {
        if self.bit_offset != 0 {
            return Err(HeifError::MalformedBox);
        }
        if header.box_size == 0 {
            return Err(HeifError::MalformedBox);
        }
        let body = header.body_size();
        let left = self.num_bytes_left();
        if body > left as u64 {
            return Err(HeifError::MalformedBox);
        }
        match self.extract(body as usize) {
            Ok(ex) => Ok(ex),
            Err(_) => Err(HeifError::MalformedBox),
        }
    }
}

} // verus!
