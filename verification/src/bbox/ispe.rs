//! The `ispe` property: an image item's spatial extents, width and height.

use crate::bbox::header::{spec_full_from, BoxHeader, FullBoxHeader};
use crate::bit::{be32, BitStream, Byte4};
use crate::HeifError;
use vstd::prelude::*;

verus! {

/// The image spatial extents property.
#[derive(Debug)]
pub struct ImageSpatialExtentsProperty {
    pub full_box_header: FullBoxHeader,
    pub width: u32,
    pub height: u32,
}

impl Default for ImageSpatialExtentsProperty {
    fn default() -> (r: ImageSpatialExtentsProperty)
        ensures
            r.width == 0,
            r.height == 0,
    {
        ImageSpatialExtentsProperty::new(0, 0)
    }
}

impl ImageSpatialExtentsProperty {
    pub fn new(width: u32, height: u32) -> (r: ImageSpatialExtentsProperty)
        ensures
            r.width == width,
            r.height == height,
            r.full_box_header.version == 0,
            r.full_box_header.flags == 0,
    {
        ImageSpatialExtentsProperty {
            full_box_header: FullBoxHeader::new(Byte4(0x69, 0x73, 0x70, 0x65), 0, 0),
            width,
            height,
        }
    }

    /// Reads the property body: version and flags, then the 32-bit width and
    /// height.
    pub fn from_stream_header(stream: &mut BitStream, box_header: BoxHeader) -> (r: Result<
        ImageSpatialExtentsProperty,
        HeifError,
    >)
        requires
            old(stream).wf(),
            old(stream).bit_offset == 0,
        ensures
            final(stream).inner@ == old(stream).inner@,
            final(stream).wf(),
            final(stream).bit_offset == 0,
            ({
                let d = old(stream).inner@;
                let p = old(stream).byte_offset as int;
                let left = d.len() - p;
                match r {
                    Ok(b) => {
                        &&& left >= 12
                        &&& spec_full_from(b.full_box_header, box_header, d, p)
                        &&& b.width == be32(d, p + 4)
                        &&& b.height == be32(d, p + 8)
                        &&& final(stream).byte_offset == p + 12
                    },
                    Err(e) => e == HeifError::EndOfStream && left < 12,
                }
            }),
    {
        let full_box_header = FullBoxHeader::from(stream, box_header)?;
        let width = stream.read_4bytes()?.to_u32();
        let height = stream.read_4bytes()?.to_u32();
        Ok(ImageSpatialExtentsProperty { full_box_header, width, height })
    }

    pub fn width(&self) -> (r: u32)
        ensures
            r == self.width,
    {
        self.width
    }

    pub fn set_width(&mut self, w: u32)
        ensures
            final(self).width == w,
            final(self).height == old(self).height,
            final(self).full_box_header == old(self).full_box_header,
    {
        self.width = w;
    }

    pub fn height(&self) -> (r: u32)
        ensures
            r == self.height,
    {
        self.height
    }

    pub fn set_height(&mut self, h: u32)
        ensures
            final(self).height == h,
            final(self).width == old(self).width,
            final(self).full_box_header == old(self).full_box_header,
    {
        self.height = h;
    }
}

} // verus!
