//! Box-level and reader-level tests over literal byte buffers.

use heif::bbox::header::BoxHeader;
use heif::bbox::iinf::ItemInfoBox;
use heif::bbox::iloc::ItemLocationBox;
use heif::bbox::pitm::PrimaryItemBox;
use heif::bit::BitStream;
use heif::reader::{process_hevc_item_data, HeifReader};
use heif::HeifError;

#[test]
fn test_box_header_new() {
    let mut stream = BitStream::new(vec![
        0x00, 0x00, 0x00, 0x18, 0x66, 0x74, 0x79, 0x70, 0x6D, 0x69, 0x66, 0x31, 0x00, 0x00, 0x00,
        0x00, 0x6D, 0x69, 0x66, 0x31, 0x68, 0x65, 0x69, 0x63,
    ]);
    let header = BoxHeader::from(&mut stream).unwrap();
    assert_eq!(header.box_size, 24);
    assert!(header.box_type.eq_str("ftyp"));
    assert_eq!(header.user_type, Vec::new());
    assert_eq!(header.is_large, false);
}

#[test]
fn mod_test_box_header_new() {
    let mut stream = BitStream::new(vec![
        0x00, 0x00, 0x00, 0x18, 0x66, 0x74, 0x79, 0x70, 0x6D, 0x69, 0x66, 0x31, 0x00, 0x00, 0x00,
        0x00, 0x6D, 0x69, 0x66, 0x31, 0x68, 0x65, 0x69, 0x63,
    ]);
    let header = BoxHeader::from(&mut stream).unwrap();
    assert_eq!(header.box_size, 24);
    assert!(header.box_type.eq_str("ftyp"));
}

#[test]
fn header_test_box_header_new() {
    let mut stream = BitStream::new(vec![
        0x00, 0x00, 0x00, 0x18, 0x66, 0x74, 0x79, 0x70, 0x6D, 0x69, 0x66, 0x31, 0x00, 0x00, 0x00,
        0x00, 0x6D, 0x69, 0x66, 0x31, 0x68, 0x65, 0x69, 0x63,
    ]);
    let header = BoxHeader::from(&mut stream).unwrap();
    assert_eq!(header.box_size, 24);
    assert!(header.box_type.eq_str("ftyp"));
    assert_eq!(header.user_type, Vec::new());
    assert_eq!(header.is_large, false);
}

fn minimal_ftyp() -> Vec<u8> {
    vec![
        0x00, 0x00, 0x00, 0x18, 0x66, 0x74, 0x79, 0x70, 0x6D, 0x69, 0x66, 0x31, 0x00, 0x00, 0x00,
        0x00, 0x6D, 0x69, 0x66, 0x31, 0x68, 0x65, 0x69, 0x63,
    ]
}

/// A minimal meta box: full box header and no children.
fn minimal_meta() -> Vec<u8> {
    vec![0x00, 0x00, 0x00, 0x0C, 0x6D, 0x65, 0x74, 0x61, 0x00, 0x00, 0x00, 0x00]
}

#[test]
fn load_minimal_file() {
    let mut buf = minimal_ftyp();
    buf.extend_from_slice(&minimal_meta());
    let mut reader = HeifReader::default();
    reader.load(buf).unwrap();
    assert!(reader.major_brand().unwrap().eq_str("mif1"));
    assert_eq!(reader.minor_version().unwrap(), 0);
    let brands = reader.compatible_brands().unwrap();
    assert_eq!(brands.len(), 2);
    assert!(brands[0].eq_str("mif1"));
    assert!(brands[1].eq_str("heic"));
}

#[test]
fn duplicate_ftyp_is_rejected() {
    let mut buf = minimal_ftyp();
    buf.extend_from_slice(&minimal_ftyp());
    buf.extend_from_slice(&minimal_meta());
    let mut reader = HeifReader::default();
    let r = reader.load(buf);
    assert!(matches!(r, Err(HeifError::DuplicateTopLevelBox)));
    assert!(reader.major_brand().is_err());
}

#[test]
fn missing_mandatory_box_is_rejected() {
    let buf = minimal_ftyp();
    let mut reader = HeifReader::default();
    let r = reader.load(buf);
    assert!(matches!(r, Err(HeifError::MissingMandatoryBox)));
}

#[test]
fn hevc_rewrite_two_nal_units() {
    let mut buf = vec![
        0x00, 0x00, 0x00, 0x04, 0xAA, 0xBB, 0xCC, 0xDD, 0x00, 0x00, 0x00, 0x02, 0xEE, 0xFF,
    ];
    process_hevc_item_data(&mut buf).unwrap();
    assert_eq!(
        buf,
        vec![0x00, 0x00, 0x00, 0x01, 0xAA, 0xBB, 0xCC, 0xDD, 0x00, 0x00, 0x00, 0x01, 0xEE, 0xFF]
    );
}

#[test]
fn hevc_rewrite_truncated_header_fails() {
    let mut buf = vec![0x00, 0x00, 0x01];
    assert!(matches!(
        process_hevc_item_data(&mut buf),
        Err(HeifError::InvalidFormat)
    ));
}

#[test]
fn iloc_zero_extent_count_is_invalid() {
    // version 0, flags 0; widths 4/4, 4/0; one item with extent_count 0.
    let body = vec![
        0x00, 0x00, 0x00, 0x00, 0x44, 0x40, 0x00, 0x01, 0x00, 0x14, 0x00, 0x00, 0x00, 0x00, 0x00,
        0x00, 0x00, 0x00, 0x00, 0x00,
    ];
    let mut stream = BitStream::new(body);
    let header = BoxHeader::new(heif::bit::Byte4(0x69, 0x6C, 0x6F, 0x63));
    let r = ItemLocationBox::from_stream_header(&mut stream, header);
    assert!(matches!(r, Err(HeifError::InvalidFormat)));
}

#[test]
fn iloc_zero_widths_read_zero() {
    // version 0; widths 0/0, 0/0; one item, one extent: every field reads 0.
    let body = vec![
        0x00, 0x00, 0x00, 0x00, 0x00, 0x00, 0x00, 0x01, 0x00, 0x14, 0x00, 0x00, 0x00, 0x01,
    ];
    let mut stream = BitStream::new(body);
    let header = BoxHeader::new(heif::bit::Byte4(0x69, 0x6C, 0x6F, 0x63));
    let b = ItemLocationBox::from_stream_header(&mut stream, header).unwrap();
    assert_eq!(b.locations.len(), 1);
    assert_eq!(b.locations[0].item_id, 0x14);
    assert_eq!(b.locations[0].base_offset, 0);
    assert_eq!(b.locations[0].extent_list.len(), 1);
    assert_eq!(b.locations[0].extent_list[0].extent_offset, 0);
    assert_eq!(b.locations[0].extent_list[0].extent_length, 0);
}

#[test]
fn pitm_version_widths() {
    let header = BoxHeader::new(heif::bit::Byte4(0x70, 0x69, 0x74, 0x6D));
    // version 0: a 16-bit id.
    let mut s0 = BitStream::new(vec![0x00, 0x00, 0x00, 0x00, 0x00, 0x14]);
    let b0 = PrimaryItemBox::from_stream_header(&mut s0, header).unwrap();
    assert_eq!(b0.item_id, 0x14);
    assert_eq!(s0.byte_offset, 6);
    // version 1: a 32-bit id.
    let header = BoxHeader::new(heif::bit::Byte4(0x70, 0x69, 0x74, 0x6D));
    let mut s1 = BitStream::new(vec![0x01, 0x00, 0x00, 0x00, 0x00, 0x01, 0x00, 0x02]);
    let b1 = PrimaryItemBox::from_stream_header(&mut s1, header).unwrap();
    assert_eq!(b1.item_id, 0x10002);
    assert_eq!(s1.byte_offset, 8);
}

#[test]
fn iinf_entry_count_width_follows_version() {
    // version 0: 16-bit count of zero entries.
    let header = BoxHeader::new(heif::bit::Byte4(0x69, 0x69, 0x6E, 0x66));
    let mut s0 = BitStream::new(vec![0x00, 0x00, 0x00, 0x00, 0x00, 0x00]);
    let b0 = ItemInfoBox::from_stream_header(&mut s0, header).unwrap();
    assert_eq!(b0.item_info_list.len(), 0);
    assert_eq!(s0.byte_offset, 6);
    // version 1: 32-bit count of zero entries.
    let header = BoxHeader::new(heif::bit::Byte4(0x69, 0x69, 0x6E, 0x66));
    let mut s1 = BitStream::new(vec![0x01, 0x00, 0x00, 0x00, 0x00, 0x00, 0x00, 0x00]);
    let b1 = ItemInfoBox::from_stream_header(&mut s1, header).unwrap();
    assert_eq!(b1.item_info_list.len(), 0);
    assert_eq!(s1.byte_offset, 8);
}

/// A meta box holding an `iinf` with one `hvc1` item of id 20 and a `pitm`
/// naming it.
fn meta_with_primary_hvc1() -> Vec<u8> {
    let mut meta_body: Vec<u8> = vec![0x00, 0x00, 0x00, 0x00];
    // pitm, version 0, id 20
    meta_body.extend_from_slice(&[
        0x00, 0x00, 0x00, 0x0E, 0x70, 0x69, 0x74, 0x6D, 0x00, 0x00, 0x00, 0x00, 0x00, 0x14,
    ]);
    // iinf v0 with one infe v2: id 20, protection 0, type hvc1, empty name
    let infe: Vec<u8> = vec![
        0x00, 0x00, 0x00, 0x15, 0x69, 0x6E, 0x66, 0x65, 0x02, 0x00, 0x00, 0x00, 0x00, 0x14, 0x00,
        0x00, 0x68, 0x76, 0x63, 0x31, 0x00,
    ];
    let mut iinf_body: Vec<u8> = vec![0x00, 0x00, 0x00, 0x00, 0x00, 0x01];
    iinf_body.extend_from_slice(&infe);
    let mut iinf: Vec<u8> = vec![0x00, 0x00, 0x00, 0x00, 0x69, 0x69, 0x6E, 0x66];
    let total = (iinf_body.len() + 8) as u32;
    iinf[0..4].copy_from_slice(&total.to_be_bytes());
    iinf.extend_from_slice(&iinf_body);
    meta_body.extend_from_slice(&iinf);
    let mut meta: Vec<u8> = vec![0x00, 0x00, 0x00, 0x00, 0x6D, 0x65, 0x74, 0x61];
    let total = (meta_body.len() + 8) as u32;
    meta[0..4].copy_from_slice(&total.to_be_bytes());
    meta.extend_from_slice(&meta_body);
    meta
}

#[test]
fn primary_hvc1_item_features() {
    let mut buf = minimal_ftyp();
    buf.extend_from_slice(&meta_with_primary_hvc1());
    let mut reader = HeifReader::default();
    reader.load(buf).unwrap();
    assert_eq!(reader.item_features.len(), 1);
    let (id, features) = reader.item_features[0];
    assert_eq!(id, 20);
    let mask = features.feature_mask();
    assert_ne!(mask & 0x1, 0, "is-master");
    assert_ne!(mask & 0x8, 0, "is-primary");
    assert_ne!(mask & 0x80, 0, "is-cover");
    assert_eq!(mask & 0x2, 0, "not a thumbnail");
    assert_eq!(mask & 0x4, 0, "not auxiliary");
    let masters = reader.get_master_image_ids().unwrap();
    assert_eq!(masters, vec![20]);
}
