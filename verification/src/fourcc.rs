//! The FourCC codes the parser recognizes, as big-endian 32-bit values of
//! their four ASCII bytes.

use vstd::prelude::*;

verus! {

// Top-level box types.
pub const FTYP: u32 = 0x6674_7970;

pub const META: u32 = 0x6D65_7461;

pub const MOOV: u32 = 0x6D6F_6F76;

pub const MDAT: u32 = 0x6D64_6174;

pub const FREE: u32 = 0x6672_6565;

pub const SKIP: u32 = 0x736B_6970;

pub const UUID: u32 = 0x7575_6964;

// Meta-box children.
pub const HDLR: u32 = 0x6864_6C72;

pub const PITM: u32 = 0x7069_746D;

pub const ILOC: u32 = 0x696C_6F63;

pub const IINF: u32 = 0x6969_6E66;

pub const INFE: u32 = 0x696E_6665;

pub const IREF: u32 = 0x6972_6566;

pub const IPRP: u32 = 0x6970_7270;

pub const IPCO: u32 = 0x6970_636F;

pub const IPMA: u32 = 0x6970_6D61;

pub const GRPL: u32 = 0x6772_706C;

pub const DINF: u32 = 0x6469_6E66;

pub const DREF: u32 = 0x6472_6566;

pub const IDAT: u32 = 0x6964_6174;

pub const IPRO: u32 = 0x6970_726F;

// `dref` children: `url ` and `urn `.
pub const URL_SP: u32 = 0x7572_6C20;

pub const URN_SP: u32 = 0x7572_6E20;

// Item types.
pub const MIME: u32 = 0x6D69_6D65;

pub const URI_SP: u32 = 0x7572_6920;

pub const AVC1: u32 = 0x6176_6331;

pub const HVC1: u32 = 0x6876_6331;

pub const GRID: u32 = 0x6772_6964;

pub const IOVL: u32 = 0x696F_766C;

pub const IDEN: u32 = 0x6964_656E;

pub const JPEG: u32 = 0x6A70_6567;

pub const EXIF: u32 = 0x4578_6966;

pub const HVT1: u32 = 0x6876_7431;

// Item property types.
pub const HVCC: u32 = 0x6876_6343;

pub const AVCC: u32 = 0x6176_6343;

pub const ISPE: u32 = 0x6973_7065;

pub const AUXC: u32 = 0x6175_7843;

pub const CLAP: u32 = 0x636C_6170;

pub const COLR: u32 = 0x636F_6C72;

pub const IMIR: u32 = 0x696D_6972;

pub const IROT: u32 = 0x6972_6F74;

pub const JPGC: u32 = 0x6A70_6743;

pub const PASP: u32 = 0x7061_7370;

pub const PIXI: u32 = 0x7069_7869;

pub const RLOC: u32 = 0x726C_6F63;

// Item reference types.
pub const THMB: u32 = 0x7468_6D62;

pub const AUXL: u32 = 0x6175_786C;

pub const BASE: u32 = 0x6261_7365;

pub const DIMG: u32 = 0x6469_6D67;

pub const CDSC: u32 = 0x6364_7363;

pub const TBAS: u32 = 0x7462_6173;

} // verus!
