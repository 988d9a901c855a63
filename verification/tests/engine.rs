//! End-to-end tests for item resolution, payload extraction, grids,
//! dimensions and the catalogue summary, over a hand-assembled buffer.

use heif::reader::{get_item_length, read_item, HeifReader};
use heif::HeifError;

/// Wraps a body in a box of the given type.
fn boxed(tag: &[u8; 4], body: &[u8]) -> Vec<u8> {
    let mut b: Vec<u8> = Vec::new();
    b.extend_from_slice(&((body.len() + 8) as u32).to_be_bytes());
    b.extend_from_slice(tag);
    b.extend_from_slice(body);
    b
}

/// Wraps a body in a full box with version and flags zero.
fn full_boxed(tag: &[u8; 4], body: &[u8]) -> Vec<u8> {
    let mut inner: Vec<u8> = vec![0, 0, 0, 0];
    inner.extend_from_slice(body);
    boxed(tag, &inner)
}

fn infe_v2(item_id: u16, item_type: &[u8; 4]) -> Vec<u8> {
    let mut body: Vec<u8> = vec![2, 0, 0, 0];
    body.extend_from_slice(&item_id.to_be_bytes());
    body.extend_from_slice(&[0, 0]);
    body.extend_from_slice(item_type);
    body.push(0);
    boxed(b"infe", &body)
}

/// A file with an `hvc1` item (id 20, 4 payload bytes) and a derived
/// `grid` item (id 30) built from it, an `ispe` property on item 20, and
/// both payloads in an `mdat` box.
fn sample_file() -> Vec<u8> {
    // ftyp
    let mut ftyp_body: Vec<u8> = Vec::new();
    ftyp_body.extend_from_slice(b"mif1");
    ftyp_body.extend_from_slice(&[0, 0, 0, 0]);
    ftyp_body.extend_from_slice(b"mif1");
    ftyp_body.extend_from_slice(b"heic");
    let ftyp = boxed(b"ftyp", &ftyp_body);
    // mdat: payload of item 20 (4 bytes), then the grid payload (8 bytes)
    let payload: Vec<u8> = vec![0xDE, 0xAD, 0xBE, 0xEF];
    let grid_payload: Vec<u8> = vec![0, 0, 1, 1, 0, 64, 0, 48];
    let mut mdat_body: Vec<u8> = Vec::new();
    mdat_body.extend_from_slice(&payload);
    mdat_body.extend_from_slice(&grid_payload);
    let mdat = boxed(b"mdat", &mdat_body);
    let payload_off = (ftyp.len() + 8) as u32;
    let grid_off = payload_off + payload.len() as u32;
    // pitm v0 -> item 20
    let pitm = full_boxed(b"pitm", &20u16.to_be_bytes());
    // iinf v0 with two entries
    let mut iinf_body: Vec<u8> = 2u16.to_be_bytes().to_vec();
    iinf_body.extend_from_slice(&infe_v2(20, b"hvc1"));
    iinf_body.extend_from_slice(&infe_v2(30, b"grid"));
    let iinf = full_boxed(b"iinf", &iinf_body);
    // iloc v0: offset and length 4 bytes wide, no base offset, no index
    let mut iloc_body: Vec<u8> = vec![0x44, 0x00];
    iloc_body.extend_from_slice(&2u16.to_be_bytes());
    for (id, off, len) in [(20u16, payload_off, 4u32), (30u16, grid_off, 8u32)] {
        iloc_body.extend_from_slice(&id.to_be_bytes());
        iloc_body.extend_from_slice(&[0, 0]);
        iloc_body.extend_from_slice(&1u16.to_be_bytes());
        iloc_body.extend_from_slice(&off.to_be_bytes());
        iloc_body.extend_from_slice(&len.to_be_bytes());
    }
    let iloc = full_boxed(b"iloc", &iloc_body);
    // iref v0 with one dimg reference: 30 -> [20]
    let mut dimg_body: Vec<u8> = 30u16.to_be_bytes().to_vec();
    dimg_body.extend_from_slice(&1u16.to_be_bytes());
    dimg_body.extend_from_slice(&20u16.to_be_bytes());
    let iref = full_boxed(b"iref", &boxed(b"dimg", &dimg_body));
    // iprp: ipco with one ispe (64 x 48), ipma associating item 20 to it
    let mut ispe_body: Vec<u8> = 64u32.to_be_bytes().to_vec();
    ispe_body.extend_from_slice(&48u32.to_be_bytes());
    let ipco = boxed(b"ipco", &full_boxed(b"ispe", &ispe_body));
    let mut ipma_body: Vec<u8> = 1u32.to_be_bytes().to_vec();
    ipma_body.extend_from_slice(&20u16.to_be_bytes());
    ipma_body.push(1);
    ipma_body.push(0x01);
    let ipma = full_boxed(b"ipma", &ipma_body);
    let mut iprp_body = ipco;
    iprp_body.extend_from_slice(&ipma);
    let iprp = boxed(b"iprp", &iprp_body);
    // meta
    let mut meta_body: Vec<u8> = Vec::new();
    meta_body.extend_from_slice(&pitm);
    meta_body.extend_from_slice(&iinf);
    meta_body.extend_from_slice(&iloc);
    meta_body.extend_from_slice(&iref);
    meta_body.extend_from_slice(&iprp);
    let meta = full_boxed(b"meta", &meta_body);
    let mut file = ftyp;
    file.extend_from_slice(&mdat);
    file.extend_from_slice(&meta);
    file
}

#[test]
fn item_length_and_payload() {
    let mut reader = HeifReader::default();
    reader.load(sample_file()).unwrap();
    let mut past: Vec<u32> = Vec::new();
    assert_eq!(get_item_length(&reader.metabox, 20, &mut past).unwrap(), 4);
    let mut past: Vec<u32> = Vec::new();
    assert_eq!(get_item_length(&reader.metabox, 30, &mut past).unwrap(), 8);
    let mut past: Vec<u32> = Vec::new();
    assert!(matches!(
        get_item_length(&reader.metabox, 99, &mut past),
        Err(HeifError::InvalidItemID)
    ));
    let buf = read_item(&reader.metabox, &reader.stream, 20, 4).unwrap();
    assert_eq!(buf, vec![0xDE, 0xAD, 0xBE, 0xEF]);
    let data = reader.get_item_data(20, false).unwrap();
    assert_eq!(data, vec![0xDE, 0xAD, 0xBE, 0xEF]);
}

#[test]
fn grid_resolution() {
    let mut reader = HeifReader::default();
    reader.load(sample_file()).unwrap();
    let grid = reader.grid_item_by_id(30).unwrap();
    assert_eq!(grid.rows, 2);
    assert_eq!(grid.columns, 2);
    assert_eq!(grid.output_width, 64);
    assert_eq!(grid.output_height, 48);
    assert_eq!(grid.image_ids, vec![20]);
    assert!(matches!(
        reader.grid_item_by_id(20),
        Err(HeifError::InvalidItemID)
    ));
}

#[test]
fn ispe_dimensions() {
    let mut reader = HeifReader::default();
    reader.load(sample_file()).unwrap();
    assert_eq!(reader.width(20).unwrap(), 64);
    assert_eq!(reader.height(20).unwrap(), 48);
    assert_eq!(reader.width(30).unwrap(), 0);
    assert!(matches!(reader.width(99), Err(HeifError::InvalidItemID)));
}

#[test]
fn master_ids_and_features() {
    let mut reader = HeifReader::default();
    reader.load(sample_file()).unwrap();
    assert_eq!(reader.get_master_image_ids().unwrap(), vec![20]);
    // Two image items: the meta box is an image collection with masters
    // and a derived image.
    let mask = reader.metabox_feature.feature_mask();
    assert_ne!(mask & 2, 0, "is-image-collection");
    assert_ne!(mask & 4, 0, "has-master-images");
    assert_ne!(mask & 32, 0, "has-derived-images");
    assert_eq!(mask & 1, 0, "not single-image");
}

#[test]
fn catalogue_summary() {
    let mut reader = HeifReader::default();
    reader.load(sample_file()).unwrap();
    let info = reader.root_meta_box_information().unwrap();
    assert_eq!(info.features, reader.metabox_feature.feature_mask());
    assert_eq!(info.item_informations.len(), 2);
    assert_eq!(info.item_informations[0].item_id, 20);
    assert_eq!(info.item_informations[0].size, 4);
    assert_eq!(info.item_informations[1].item_id, 30);
    assert_eq!(info.item_informations[1].size, 8);
    assert!(info.entity_groupings.is_empty());
}

#[test]
fn headers_without_decoder_config_are_refused() {
    // Item 20 is hvc1 but the file carries no hvcC property, so no code
    // type is bound and the byte-stream rewrite cannot be requested.
    let mut reader = HeifReader::default();
    reader.load(sample_file()).unwrap();
    assert!(matches!(
        reader.get_item_data(20, true),
        Err(HeifError::InvalidItemID)
    ));
    assert!(matches!(
        reader.get_item_data_with_decoder_parameters(20),
        Err(HeifError::InvalidItemID)
    ));
}

#[test]
fn uninitialized_queries_are_refused() {
    let reader = HeifReader::default();
    assert!(matches!(
        reader.get_item_data(20, false),
        Err(HeifError::Uninitialized)
    ));
    assert!(matches!(
        reader.grid_item_by_id(30),
        Err(HeifError::Uninitialized)
    ));
    assert!(matches!(reader.width(20), Err(HeifError::Uninitialized)));
    assert!(matches!(
        reader.root_meta_box_information(),
        Err(HeifError::Uninitialized)
    ));
}
