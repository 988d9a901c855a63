//! The `iinf` box: the catalogue of items.  The entry count is 16 bits wide
//! for version 0 and 32 bits wide otherwise; each entry is an `infe` full
//! box whose fields depend on its own version.

use crate::bbox::header::{
    spec_box_type, spec_child_body, spec_child_end, spec_child_err, spec_child_ok, spec_full_from,
    BoxHeader, FullBoxHeader,
};
use crate::bit::{
    ascii_str_of, be16, be24, be32, be64, cstr_after, cstr_bytes, BitStream, Byte4,
};
use crate::fourcc;
use crate::HeifError;
use vstd::prelude::*;

verus! {

/// What an `infe` extension holds, over raw bytes.
pub struct InfoExtensionView {
    pub location_bytes: Seq<u8>,
    pub md5_bytes: Seq<u8>,
    pub content_length: int,
    pub transfer_length: int,
    pub entry_count: u8,
    pub group_ids: Seq<int>,
}

/// The extension of an entry that carries none.
pub open spec fn spec_empty_extension() -> InfoExtensionView {
    InfoExtensionView {
        location_bytes: Seq::empty(),
        md5_bytes: Seq::empty(),
        content_length: 0,
        transfer_length: 0,
        entry_count: 0,
        group_ids: Seq::empty(),
    }
}

/// Parses an `infe` extension at byte `p` of `d`: two zero-terminated
/// strings, two 64-bit lengths, a one-byte count, then that many 32-bit
/// group ids.
pub open spec fn spec_parse_info_extension(d: Seq<u8>, p: int) -> Result<
    (InfoExtensionView, int),
    HeifError,
> {
    let a1 = cstr_after(d, p);
    let a2 = cstr_after(d, a1);
    if d.len() - a2 < 17 {
        Err(HeifError::EndOfStream)
    } else if d.len() - (a2 + 17) < 4 * (d[a2 + 16] as int) {
        Err(HeifError::EndOfStream)
    } else {
        Ok(
            (
                InfoExtensionView {
                    location_bytes: cstr_bytes(d, p),
                    md5_bytes: cstr_bytes(d, a1),
                    content_length: be64(d, a2),
                    transfer_length: be64(d, a2 + 8),
                    entry_count: d[a2 + 16],
                    group_ids: Seq::new(d[a2 + 16] as nat, |i: int| be32(d, a2 + 17 + 4 * i)),
                },
                a2 + 17 + 4 * (d[a2 + 16] as int),
            ),
        )
    }
}

/// What one `infe` entry holds, over its body bytes.
pub struct InfoEntryView {
    pub version: u8,
    pub flags: int,
    pub item_id: int,
    pub protection_index: int,
    pub item_type: Byte4,
    pub name_bytes: Seq<u8>,
    pub content_type_bytes: Seq<u8>,
    pub content_encoding_bytes: Seq<u8>,
    pub uri_type_bytes: Seq<u8>,
    pub has_extension_type: bool,
    pub extension_type: Byte4,
    pub has_extension: bool,
    pub extension: InfoExtensionView,
}

/// The entry view with everything beyond the given scalars absent.
pub open spec fn spec_basic_entry(
    version: u8,
    flags: int,
    item_id: int,
    protection_index: int,
) -> InfoEntryView {
    InfoEntryView {
        version,
        flags,
        item_id,
        protection_index,
        item_type: Byte4(0, 0, 0, 0),
        name_bytes: Seq::empty(),
        content_type_bytes: Seq::empty(),
        content_encoding_bytes: Seq::empty(),
        uri_type_bytes: Seq::empty(),
        has_extension_type: false,
        extension_type: Byte4(0, 0, 0, 0),
        has_extension: false,
        extension: spec_empty_extension(),
    }
}

/// The width in bytes of an `infe` item id for entry versions 2 and later:
/// 16 bits for version 2, 32 bits for version 3, absent after that.
pub open spec fn spec_infe_id_width(version: u8) -> int {
    if version == 2 {
        2int
    } else if version == 3 {
        4int
    } else {
        0int
    }
}

/// Parses the whole body of one `infe` entry.
pub open spec fn spec_parse_infe(d: Seq<u8>) -> Result<InfoEntryView, HeifError> {
    if d.len() < 4 {
        Err(HeifError::EndOfStream)
    } else {
        let version = d[0];
        let flags = be24(d, 1);
        if version == 0 || version == 1 {
            if d.len() < 8 {
                Err(HeifError::EndOfStream)
            } else {
                let base = spec_basic_entry(version, flags, be16(d, 4), be16(d, 6));
                if version == 1 && d.len() > 8 {
                    if d.len() < 12 {
                        Err(HeifError::EndOfStream)
                    } else {
                        let ext_type = Byte4(d[8], d[9], d[10], d[11]);
                        if d.len() > 12 {
                            match spec_parse_info_extension(d, 12) {
                                Ok(pair) => Ok(
                                    InfoEntryView {
                                        has_extension_type: true,
                                        extension_type: ext_type,
                                        has_extension: true,
                                        extension: pair.0,
                                        ..base
                                    },
                                ),
                                Err(e) => Err(e),
                            }
                        } else {
                            Ok(
                                InfoEntryView {
                                    has_extension_type: true,
                                    extension_type: ext_type,
                                    ..base
                                },
                            )
                        }
                    }
                } else {
                    Ok(base)
                }
            }
        } else {
            let idw = spec_infe_id_width(version);
            if d.len() < 10 + idw {
                Err(HeifError::EndOfStream)
            } else {
                let item_id: int = if version == 2 {
                    be16(d, 4)
                } else if version == 3 {
                    be32(d, 4)
                } else {
                    0
                };
                let q = 4 + idw;
                let item_type = Byte4(d[q + 2], d[q + 3], d[q + 4], d[q + 5]);
                let t0 = q + 6;
                let t1 = cstr_after(d, t0);
                let base = InfoEntryView {
                    item_type,
                    name_bytes: cstr_bytes(d, t0),
                    ..spec_basic_entry(version, flags, item_id, be16(d, q))
                };
                if item_type.value() == fourcc::MIME {
                    let t2 = cstr_after(d, t1);
                    if t2 < d.len() {
                        Ok(
                            InfoEntryView {
                                content_type_bytes: cstr_bytes(d, t1),
                                content_encoding_bytes: cstr_bytes(d, t2),
                                ..base
                            },
                        )
                    } else {
                        Ok(InfoEntryView { content_type_bytes: cstr_bytes(d, t1), ..base })
                    }
                } else if item_type.value() == fourcc::URI_SP {
                    Ok(InfoEntryView { uri_type_bytes: cstr_bytes(d, t1), ..base })
                } else {
                    Ok(base)
                }
            }
        }
    }
}

/// Parses `count` `infe` child boxes starting at byte `p` of `d`.
pub open spec fn spec_parse_iinf_entries(
    d: Seq<u8>,
    p: int,
    count: nat,
    acc: Seq<InfoEntryView>,
) -> Result<(Seq<InfoEntryView>, int), HeifError>
    decreases count,
{
    if count == 0 {
        Ok((acc, p))
    } else if !spec_child_ok(d, p) {
        Err(spec_child_err(d, p))
    } else {
        match spec_parse_infe(spec_child_body(d, p)) {
            Ok(v) => spec_parse_iinf_entries(d, spec_child_end(d, p), (count - 1) as nat, acc.push(v)),
            Err(e) => Err(e),
        }
    }
}

/// Parses an `iinf` body at byte `p` of `d`: version and flags, an entry
/// count whose width follows the version, then that many `infe` entries.
pub open spec fn spec_parse_iinf(d: Seq<u8>, p: int) -> Result<(Seq<InfoEntryView>, int), HeifError> {
    if d.len() - p < 4 {
        Err(HeifError::EndOfStream)
    } else if d[p] == 0 {
        if d.len() - p < 6 {
            Err(HeifError::EndOfStream)
        } else {
            spec_parse_iinf_entries(d, p + 6, be16(d, p + 4) as nat, Seq::empty())
        }
    } else {
        if d.len() - p < 8 {
            Err(HeifError::EndOfStream)
        } else {
            spec_parse_iinf_entries(d, p + 8, be32(d, p + 4) as nat, Seq::empty())
        }
    }
}

/// The extension fields an `infe` entry of version 1 may carry.
#[derive(Debug)]
pub struct ItemInfoExtension {
    pub content_location: String,
    pub content_md5: String,
    pub content_length: u64,
    pub transfer_length: u64,
    pub entry_count: u8,
    pub group_id: Vec<u32>,
}

impl Default for ItemInfoExtension {
    fn default() -> (r: ItemInfoExtension)
        ensures
            r.matches(spec_empty_extension()),
            r.content_location@ == Seq::<char>::empty(),
            r.content_md5@ == Seq::<char>::empty(),
            r.content_length == 0,
            r.transfer_length == 0,
            r.entry_count == 0,
            r.group_id@ == Seq::<u32>::empty(),
    {
        let r = ItemInfoExtension {
            content_location: String::new(),
            content_md5: String::new(),
            content_length: 0,
            transfer_length: 0,
            entry_count: 0,
            group_id: Vec::new(),
        };
        proof {
            assert(r.group_id@.map_values(|x: u32| x as int) =~= Seq::<int>::empty());
            assert(spec_empty_extension().location_bytes.map_values(|b: u8| b as char)
                =~= Seq::<char>::empty());
            assert(spec_empty_extension().md5_bytes.map_values(|b: u8| b as char)
                =~= Seq::<char>::empty());
        }
        r
    }
}

impl ItemInfoExtension {
    /// How this extension reflects a parsed view: scalar fields agree, and
    /// each string holds the decoded bytes whenever they are ASCII.
    pub open spec fn matches(&self, v: InfoExtensionView) -> bool {
        &&& ascii_str_of(v.location_bytes, self.content_location@)
        &&& ascii_str_of(v.md5_bytes, self.content_md5@)
        &&& self.content_length == v.content_length
        &&& self.transfer_length == v.transfer_length
        &&& self.entry_count == v.entry_count
        &&& self.group_id@.map_values(|x: u32| x as int) == v.group_ids
    }

    /// Reads the extension fields in order.
    pub fn new(stream: &mut BitStream) -> (r: Result<ItemInfoExtension, HeifError>)
        requires
            old(stream).wf(),
            old(stream).bit_offset == 0,
        ensures
            final(stream).inner@ == old(stream).inner@,
            final(stream).wf(),
            final(stream).bit_offset == 0,
            ({
                let d = old(stream).inner@;
                let p = old(stream).byte_offset as int;
                match r {
                    Ok(b) => {
                        &&& spec_parse_info_extension(d, p) matches Ok(pair) && b.matches(pair.0)
                            && final(stream).byte_offset == pair.1
                    },
                    Err(e) => spec_parse_info_extension(d, p) == Err::<
                        (InfoExtensionView, int),
                        _,
                    >(e),
                }
            }),
    {
        let content_location = stream.read_zero_term_string();
        let content_md5 = stream.read_zero_term_string();
        let content_length = stream.read_8bytes()?.to_u64();
        let transfer_length = stream.read_8bytes()?.to_u64();
        let entry_count = stream.read_byte()?;
        let group_id = stream.read_be32s(entry_count as usize)?;
        let b = ItemInfoExtension {
            content_location,
            content_md5,
            content_length,
            transfer_length,
            entry_count,
            group_id,
        };
        proof {
            let d = old(stream).inner@;
            let p = old(stream).byte_offset as int;
            let pair = spec_parse_info_extension(d, p)->Ok_0;
            assert(b.group_id@.map_values(|x: u32| x as int) =~= pair.0.group_ids);
        }
        Ok(b)
    }

    pub fn content_location(&self) -> (r: &String)
        ensures
            r == self.content_location,
    {
        &self.content_location
    }

    pub fn set_content_location(&mut self, location: String)
        ensures
            final(self).content_location == location,
            final(self).content_md5 == old(self).content_md5,
            final(self).content_length == old(self).content_length,
            final(self).transfer_length == old(self).transfer_length,
            final(self).entry_count == old(self).entry_count,
            final(self).group_id == old(self).group_id,
    {
        self.content_location = location;
    }

    pub fn content_md5(&self) -> (r: &String)
        ensures
            r == self.content_md5,
    {
        &self.content_md5
    }

    pub fn set_content_md5(&mut self, md5: String)
        ensures
            final(self).content_md5 == md5,
            final(self).content_location == old(self).content_location,
            final(self).content_length == old(self).content_length,
            final(self).transfer_length == old(self).transfer_length,
            final(self).entry_count == old(self).entry_count,
            final(self).group_id == old(self).group_id,
    {
        self.content_md5 = md5;
    }

    pub fn content_length(&self) -> (r: u64)
        ensures
            r == self.content_length,
    {
        self.content_length
    }

    pub fn set_content_length(&mut self, length: u64)
        ensures
            final(self).content_length == length,
            final(self).content_location == old(self).content_location,
            final(self).content_md5 == old(self).content_md5,
            final(self).transfer_length == old(self).transfer_length,
            final(self).entry_count == old(self).entry_count,
            final(self).group_id == old(self).group_id,
    {
        self.content_length = length;
    }

    pub fn transfer_length(&self) -> (r: u64)
        ensures
            r == self.transfer_length,
    {
        self.transfer_length
    }

    pub fn set_transfer_length(&mut self, len: u64)
        ensures
            final(self).transfer_length == len,
            final(self).content_location == old(self).content_location,
            final(self).content_md5 == old(self).content_md5,
            final(self).content_length == old(self).content_length,
            final(self).entry_count == old(self).entry_count,
            final(self).group_id == old(self).group_id,
    {
        self.transfer_length = len;
    }

    pub fn entry_count(&self) -> (r: u8)
        ensures
            r == self.entry_count,
    {
        self.entry_count
    }

    pub fn set_entry_count(&mut self, count: u8)
        ensures
            final(self).entry_count == count,
            final(self).content_location == old(self).content_location,
            final(self).content_md5 == old(self).content_md5,
            final(self).content_length == old(self).content_length,
            final(self).transfer_length == old(self).transfer_length,
            final(self).group_id == old(self).group_id,
    {
        self.entry_count = count;
    }

    pub fn group_id_at(&self, index: usize) -> (r: Option<u32>)
        ensures
            match r {
                Some(id) => index < self.group_id@.len() && id == self.group_id@[index as int],
                None => index >= self.group_id@.len(),
            },
    {
        if index < self.group_id.len() {
            Some(self.group_id[index])
        } else {
            None
        }
    }

    pub fn set_group_id_at(&mut self, id: u32, index: usize)
        requires
            index < old(self).group_id@.len(),
        ensures
            final(self).group_id@ == old(self).group_id@.update(index as int, id),
            final(self).content_location == old(self).content_location,
            final(self).content_md5 == old(self).content_md5,
            final(self).content_length == old(self).content_length,
            final(self).transfer_length == old(self).transfer_length,
            final(self).entry_count == old(self).entry_count,
    {
        self.group_id[index] = id;
    }
}

/// One `infe` entry.
#[derive(Debug)]
pub struct ItemInfoEntry {
    pub full_box_header: FullBoxHeader,
    pub item_id: u32,
    pub item_protection_index: u16,
    pub item_name: String,
    pub content_type: String,
    pub content_encoding: String,
    pub extension_type: String,
    pub item_info_extension: ItemInfoExtension,
    pub item_type: Byte4,
    pub item_uri_type: String,
}

impl Default for ItemInfoEntry {
    fn default() -> (r: ItemInfoEntry)
        ensures
            r.item_id == 0,
            r.item_protection_index == 0,
            r.item_type == (Byte4(0, 0, 0, 0)),
            r.item_name@ == Seq::<char>::empty(),
            r.content_type@ == Seq::<char>::empty(),
            r.content_encoding@ == Seq::<char>::empty(),
            r.extension_type@ == Seq::<char>::empty(),
            r.item_uri_type@ == Seq::<char>::empty(),
            r.item_info_extension.matches(spec_empty_extension()),
    {
        ItemInfoEntry {
            full_box_header: FullBoxHeader::new(Byte4(0x69, 0x6E, 0x66, 0x65), 0, 0),
            item_id: 0,
            item_protection_index: 0,
            item_name: String::new(),
            content_type: String::new(),
            content_encoding: String::new(),
            extension_type: String::new(),
            item_info_extension: ItemInfoExtension::default(),
            item_type: Byte4(0, 0, 0, 0),
            item_uri_type: String::new(),
        }
    }
}

impl ItemInfoEntry {
    /// How this entry reflects a parsed view: scalar fields agree, and each
    /// string holds the decoded bytes whenever they are ASCII.
    pub open spec fn matches(&self, v: InfoEntryView) -> bool {
        &&& self.full_box_header.version == v.version
        &&& self.full_box_header.flags == v.flags
        &&& self.item_id == v.item_id
        &&& self.item_protection_index == v.protection_index
        &&& self.item_type == v.item_type
        &&& ascii_str_of(v.name_bytes, self.item_name@)
        &&& ascii_str_of(v.content_type_bytes, self.content_type@)
        &&& ascii_str_of(v.content_encoding_bytes, self.content_encoding@)
        &&& ascii_str_of(v.uri_type_bytes, self.item_uri_type@)
        &&& (v.has_extension_type ==> self.extension_type@ == v.extension_type.chars())
        &&& (!v.has_extension_type ==> self.extension_type@ == Seq::<char>::empty())
        &&& self.item_info_extension.matches(v.extension)
    }

    /// Reads one `infe` entry from the start of its extracted body.
    pub fn new(stream: &mut BitStream, box_header: BoxHeader) -> (r: Result<
        ItemInfoEntry,
        HeifError,
    >)
        requires
            old(stream).wf(),
            old(stream).bit_offset == 0,
            old(stream).byte_offset == 0,
        ensures
            final(stream).inner@ == old(stream).inner@,
            final(stream).wf(),
            final(stream).bit_offset == 0,
            ({
                let d = old(stream).inner@;
                match r {
                    Ok(b) => spec_parse_infe(d) matches Ok(v) && b.matches(v),
                    Err(e) => spec_parse_infe(d) == Err::<InfoEntryView, _>(e),
                }
            }),
    {
        let ghost d = old(stream).inner@;
        let full_box_header = FullBoxHeader::from(stream, box_header)?;
        let version = full_box_header.version();
        let mut entry = ItemInfoEntry::default();
        entry.full_box_header = full_box_header;
        if version == 0 || version == 1 {
            entry.item_id = stream.read_2bytes()?.to_u32();
            entry.item_protection_index = stream.read_2bytes()?.to_u16();
            if version == 1 {
                if stream.num_bytes_left() > 0 {
                    let ext_type = stream.read_4bytes()?;
                    entry.extension_type = ext_type.to_string();
                    if stream.num_bytes_left() > 0 {
                        entry.item_info_extension = ItemInfoExtension::new(stream)?;
                    }
                }
            }
        } else {
            entry.item_id = if version == 2 {
                stream.read_2bytes()?.to_u32()
            } else if version == 3 {
                stream.read_4bytes()?.to_u32()
            } else {
                0
            };
            entry.item_protection_index = stream.read_2bytes()?.to_u16();
            entry.item_type = stream.read_4bytes()?;
            entry.item_name = stream.read_zero_term_string();
            if entry.item_type.to_u32() == fourcc::MIME {
                entry.content_type = stream.read_zero_term_string();
                if stream.num_bytes_left() > 0 {
                    entry.content_encoding = stream.read_zero_term_string();
                }
            } else if entry.item_type.to_u32() == fourcc::URI_SP {
                entry.item_uri_type = stream.read_zero_term_string();
            }
        }
        proof {
            assert(Seq::<u8>::empty().map_values(|b: u8| b as char) =~= Seq::<char>::empty());
        }
        Ok(entry)
    }

    pub fn full_box_header(&self) -> (r: &FullBoxHeader)
        ensures
            r == self.full_box_header,
    {
        &self.full_box_header
    }

    pub fn item_id(&self) -> (r: u32)
        ensures
            r == self.item_id,
    {
        self.item_id
    }

    pub fn set_item_id(&mut self, item_id: u32)
        ensures
            *final(self) == (ItemInfoEntry { item_id, ..*old(self) }),
    {
        self.item_id = item_id;
    }

    pub fn item_protection_index(&self) -> (r: u16)
        ensures
            r == self.item_protection_index,
    {
        self.item_protection_index
    }

    pub fn set_item_protection_index(&mut self, idx: u16)
        ensures
            *final(self) == (ItemInfoEntry { item_protection_index: idx, ..*old(self) }),
    {
        self.item_protection_index = idx;
    }

    pub fn item_name(&self) -> (r: &String)
        ensures
            r == self.item_name,
    {
        &self.item_name
    }

    pub fn set_item_name(&mut self, name: String)
        ensures
            *final(self) == (ItemInfoEntry { item_name: name, ..*old(self) }),
    {
        self.item_name = name;
    }

    pub fn content_type(&self) -> (r: &String)
        ensures
            r == self.content_type,
    {
        &self.content_type
    }

    pub fn set_content_type(&mut self, content_type: String)
        ensures
            *final(self) == (ItemInfoEntry { content_type, ..*old(self) }),
    {
        self.content_type = content_type;
    }

    pub fn content_encoding(&self) -> (r: &String)
        ensures
            r == self.content_encoding,
    {
        &self.content_encoding
    }

    pub fn set_content_encoding(&mut self, enc: String)
        ensures
            *final(self) == (ItemInfoEntry { content_encoding: enc, ..*old(self) }),
    {
        self.content_encoding = enc;
    }

    pub fn extension_type(&self) -> (r: &String)
        ensures
            r == self.extension_type,
    {
        &self.extension_type
    }

    pub fn set_extension_type(&mut self, ex_type: String)
        ensures
            *final(self) == (ItemInfoEntry { extension_type: ex_type, ..*old(self) }),
    {
        self.extension_type = ex_type;
    }

    pub fn item_type(&self) -> (r: &Byte4)
        ensures
            r == self.item_type,
    {
        &self.item_type
    }

    pub fn set_item_type(&mut self, i_type: Byte4)
        ensures
            *final(self) == (ItemInfoEntry { item_type: i_type, ..*old(self) }),
    {
        self.item_type = i_type;
    }

    pub fn item_uri_type(&self) -> (r: &String)
        ensures
            r == self.item_uri_type,
    {
        &self.item_uri_type
    }

    pub fn set_item_uri_type(&mut self, u_type: String)
        ensures
            *final(self) == (ItemInfoEntry { item_uri_type: u_type, ..*old(self) }),
    {
        self.item_uri_type = u_type;
    }
}

/// The item info box.
#[derive(Debug)]
pub struct ItemInfoBox {
    pub full_box_header: FullBoxHeader,
    pub item_info_list: Vec<ItemInfoEntry>,
}

impl Default for ItemInfoBox {
    fn default() -> (r: ItemInfoBox)
        ensures
            r.item_info_list@.len() == 0,
    {
        ItemInfoBox::new(0)
    }
}

/// The first entry in the list with this item id, when one exists.
pub open spec fn spec_first_entry(s: Seq<ItemInfoEntry>, id: u32) -> Option<ItemInfoEntry>
    decreases s.len(),
{
    if s.len() == 0 {
        Option::None
    } else if s[0].item_id == id {
        Option::Some(s[0])
    } else {
        spec_first_entry(s.drop_first(), id)
    }
}

impl ItemInfoBox {
    /// The first entry with this item id, when one exists.
    pub open spec fn spec_entry_of(&self, id: u32) -> Option<ItemInfoEntry> {
        spec_first_entry(self.item_info_list@, id)
    }

    /// The item ids of the entries, in order.
    pub open spec fn spec_item_ids(&self) -> Seq<u32> {
        self.item_info_list@.map_values(|e: ItemInfoEntry| e.item_id)
    }

    /// True when some entry carries this item id.
    pub open spec fn spec_has_item(&self, id: u32) -> bool {
        exists|j: int| 0 <= j < self.item_info_list@.len() && #[trigger] self.item_info_list@[j].item_id == id
    }

    /// How this box reflects the parsed entry views, pointwise.
    pub open spec fn matches(&self, views: Seq<InfoEntryView>) -> bool {
        &&& self.item_info_list@.len() == views.len()
        &&& forall|j: int|
            0 <= j < views.len() ==> #[trigger] self.item_info_list@[j].matches(views[j])
    }

    pub fn new(version: u8) -> (r: ItemInfoBox)
        ensures
            r.item_info_list@.len() == 0,
            r.full_box_header.version == version,
    {
        ItemInfoBox {
            full_box_header: FullBoxHeader::new(Byte4(0x69, 0x69, 0x6E, 0x66), version, 0),
            item_info_list: Vec::new(),
        }
    }

    /// Reads the box body: version and flags, the entry count in the width
    /// the version selects, then that many `infe` entries.
    pub fn from_stream_header(stream: &mut BitStream, box_header: BoxHeader) -> (r: Result<
        ItemInfoBox,
        HeifError,
    >)
        requires
            old(stream).wf(),
            old(stream).bit_offset == 0,
        ensures
            final(stream).inner@ == old(stream).inner@,
            final(stream).wf(),
            final(stream).bit_offset == 0,
            ({
                let d = old(stream).inner@;
                let p = old(stream).byte_offset as int;
                match r {
                    Ok(b) => {
                        &&& spec_full_from(b.full_box_header, box_header, d, p)
                        &&& spec_parse_iinf(d, p) matches Ok(pair) && b.matches(pair.0)
                            && final(stream).byte_offset == pair.1
                    },
                    Err(e) => spec_parse_iinf(d, p) == Err::<(Seq<InfoEntryView>, int), _>(e),
                }
            }),
    {
        let ghost d = old(stream).inner@;
        let ghost p = old(stream).byte_offset as int;
        let full_box_header = FullBoxHeader::from(stream, box_header)?;
        let entry_count: u32 = if full_box_header.version() == 0 {
            stream.read_2bytes()?.to_u32()
        } else {
            stream.read_4bytes()?.to_u32()
        };
        let ghost count = entry_count as nat;
        let ghost start = stream.byte_offset as int;
        let mut item_info_list: Vec<ItemInfoEntry> = Vec::new();
        let ghost mut views: Seq<InfoEntryView> = Seq::empty();
        let mut i: u32 = 0;
        while i < entry_count
            invariant
                d == old(stream).inner@,
                p == old(stream).byte_offset as int,
                stream.inner@ == d,
                stream.wf(),
                stream.bit_offset == 0,
                i <= entry_count,
                count == entry_count as nat,
                spec_parse_iinf(d, p) == spec_parse_iinf_entries(d, start, count, Seq::empty()),
                spec_parse_iinf_entries(d, start, count, Seq::empty()) == spec_parse_iinf_entries(
                    d,
                    stream.byte_offset as int,
                    (count - i) as nat,
                    views,
                ),
                item_info_list@.len() == views.len(),
                views.len() == i,
                forall|j: int|
                    0 <= j < views.len() ==> #[trigger] item_info_list@[j].matches(views[j]),
            decreases entry_count - i,
        {
            let ghost cur = stream.byte_offset as int;
            let child_box_header = match BoxHeader::from(stream) {
                Ok(h) => h,
                Err(e) => {
                    proof {
                        assert(!spec_child_ok(d, cur));
                        assert(spec_child_err(d, cur) == e);
                    }
                    return Err(e);
                },
            };
            let mut ex = match stream.extract_from(&child_box_header) {
                Ok(x) => x,
                Err(e) => {
                    proof {
                        assert(!spec_child_ok(d, cur));
                        assert(spec_child_err(d, cur) == e);
                    }
                    return Err(e);
                },
            };
            let entry = ItemInfoEntry::new(&mut ex, child_box_header)?;
            item_info_list.push(entry);
            proof {
                assert(spec_child_ok(d, cur));
                views = views.push(spec_parse_infe(spec_child_body(d, cur))->Ok_0);
            }
            i = i + 1;
        }
        Ok(ItemInfoBox { full_box_header, item_info_list })
    }

    pub fn full_box_header(&self) -> (r: &FullBoxHeader)
        ensures
            r == self.full_box_header,
    {
        &self.full_box_header
    }

    pub fn clear(&mut self)
        ensures
            final(self).item_info_list@.len() == 0,
            final(self).full_box_header == old(self).full_box_header,
    {
        self.item_info_list.clear();
    }

    /// The item ids of the entries, in order.
    pub fn item_ids(&self) -> (r: Vec<u32>)
        ensures
            r@ == self.spec_item_ids(),
    {
        let n = self.item_info_list.len();
        let mut r: Vec<u32> = Vec::new();
        let mut i: usize = 0;
        while i < n
            invariant
                n == self.item_info_list@.len(),
                i <= n,
                r@.len() == i,
                forall|j: int| 0 <= j < i ==> r@[j] == self.spec_item_ids()[j],
            decreases n - i,
        {
            r.push(self.item_info_list[i].item_id);
            i = i + 1;
        }
        proof {
            assert(r@ =~= self.spec_item_ids());
        }
        r
    }

    pub fn add_item_info_entry(&mut self, info_entry: ItemInfoEntry)
        ensures
            final(self).item_info_list@ == old(self).item_info_list@.push(info_entry),
            final(self).full_box_header == old(self).full_box_header,
    {
        self.item_info_list.push(info_entry);
    }

    /// The first entry with this item id, when one exists.
    pub fn item_by_id(&self, id: u32) -> (r: Option<&ItemInfoEntry>)
        ensures
            r is Some <==> self.spec_has_item(id),
            match r {
                Some(e) => self.spec_entry_of(id) == Option::Some(*e) && e.item_id == id
                    && self.item_info_list@.contains(*e),
                None => self.spec_entry_of(id) is None,
            },
    {
        let n = self.item_info_list.len();
        let mut i: usize = 0;
        proof {
            assert(self.item_info_list@.skip(0int) =~= self.item_info_list@);
        }
        while i < n
            invariant
                n == self.item_info_list@.len(),
                i <= n,
                forall|j: int| 0 <= j < i ==> #[trigger] self.item_info_list@[j].item_id != id,
                spec_first_entry(self.item_info_list@, id) == spec_first_entry(
                    self.item_info_list@.skip(i as int),
                    id,
                ),
            decreases n - i,
        {
            proof {
                assert(self.item_info_list@.skip(i as int).drop_first()
                    =~= self.item_info_list@.skip(i + 1));
                assert(self.item_info_list@.skip(i as int)[0] == self.item_info_list@[i as int]);
            }
            if self.item_info_list[i].item_id == id {
                return Some(&self.item_info_list[i]);
            }
            i = i + 1;
        }
        proof {
            assert(self.item_info_list@.skip(n as int) =~= Seq::<ItemInfoEntry>::empty());
        }
        None
    }

    /// The first entry with this item type, when one exists.
    pub fn item_by_type(&self, item_type: Byte4) -> (r: Option<&ItemInfoEntry>)
        ensures
            r is Some <==> exists|j: int|
                0 <= j < self.item_info_list@.len() && #[trigger] self.item_info_list@[j].item_type
                    == item_type,
            match r {
                Some(e) => e.item_type == item_type && self.item_info_list@.contains(*e),
                None => true,
            },
    {
        let n = self.item_info_list.len();
        let mut i: usize = 0;
        while i < n
            invariant
                n == self.item_info_list@.len(),
                i <= n,
                forall|j: int| 0 <= j < i ==> #[trigger] self.item_info_list@[j].item_type != item_type,
            decreases n - i,
        {
            if self.item_info_list[i].item_type == item_type {
                return Some(&self.item_info_list[i]);
            }
            i = i + 1;
        }
        None
    }
}

} // verus!
