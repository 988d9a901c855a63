//! The `hdlr` box: the handler type for the meta-box contents, and the
//! handler's display name.

use crate::bbox::header::{spec_full_from, BoxHeader, FullBoxHeader};
use crate::bit::{BitStream, Byte4};
use crate::HeifError;
use vstd::prelude::*;

verus! {

/// The handler box.
#[derive(Debug)]
pub struct HandlerBox {
    pub full_box_header: FullBoxHeader,
    pub handler_type: Byte4,
    pub name: String,
}

impl Default for HandlerBox {
    fn default() -> (r: HandlerBox)
        ensures
            r.handler_type == (Byte4(0, 0, 0, 0)),
            r.name@ == Seq::<char>::empty(),
    {
        HandlerBox {
            full_box_header: FullBoxHeader::new(Byte4(0x68, 0x64, 0x6C, 0x72), 0, 0),
            handler_type: Byte4(0, 0, 0, 0),
            name: String::new(),
        }
    }
}

impl HandlerBox {
    /// Reads the box body: version and flags, four reserved bytes, the
    /// four-byte handler type, twelve reserved bytes, then the
    /// zero-terminated handler name.
    pub fn from_stream_header(stream: &mut BitStream, box_header: BoxHeader) -> (r: Result<
        HandlerBox,
        HeifError,
    >)
        requires
            old(stream).wf(),
            old(stream).bit_offset == 0,
        ensures
            final(stream).inner@ == old(stream).inner@,
            final(stream).wf(),
            final(stream).bit_offset == 0,
            ({
                let d = old(stream).inner@;
                let p = old(stream).byte_offset as int;
                let left = d.len() - p;
                match r {
                    Ok(b) => {
                        &&& left >= 24
                        &&& spec_full_from(b.full_box_header, box_header, d, p)
                        &&& b.handler_type == (Byte4(d[p + 8], d[p + 9], d[p + 10], d[p + 11]))
                        &&& final(stream).byte_offset == crate::bit::cstr_after(d, p + 24)
                        &&& crate::bit::ascii_str_of(crate::bit::cstr_bytes(d, p + 24), b.name@)
                    },
                    Err(e) => e == HeifError::EndOfStream && left < 24,
                }
            }),
    {
        let full_box_header = FullBoxHeader::from(stream, box_header)?;
        stream.skip_bytes(4)?;
        let handler_type = stream.read_4bytes()?;
        stream.skip_bytes(12)?;
        let name = stream.read_zero_term_string();
        Ok(HandlerBox { full_box_header, handler_type, name })
    }

    pub fn full_box_header(&self) -> (r: &FullBoxHeader)
        ensures
            r == self.full_box_header,
    {
        &self.full_box_header
    }

    pub fn handler_type(&self) -> (r: &Byte4)
        ensures
            r == self.handler_type,
    {
        &self.handler_type
    }

    pub fn set_handler_type(&mut self, handler_type: Byte4)
        ensures
            final(self).handler_type == handler_type,
            final(self).full_box_header == old(self).full_box_header,
            final(self).name == old(self).name,
    {
        self.handler_type = handler_type;
    }

    pub fn name(&self) -> (r: &String)
        ensures
            r == self.name,
    {
        &self.name
    }

    pub fn set_name(&mut self, name: String)
        ensures
            final(self).name == name,
            final(self).full_box_header == old(self).full_box_header,
            final(self).handler_type == old(self).handler_type,
    {
        self.name = name;
    }
}

} // verus!
