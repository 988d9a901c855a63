//! The box layer: generic headers and a parser for each recognized box type
//! of the `ftyp` and meta-box families.

pub mod dinf;
pub mod ftyp;
pub mod grpl;
pub mod hdlr;
pub mod hevc;
pub mod header;
pub mod idat;
pub mod iinf;
pub mod iloc;
pub mod ipro;
pub mod iprp;
pub mod iref;
pub mod ispe;
pub mod meta;
pub mod pitm;
