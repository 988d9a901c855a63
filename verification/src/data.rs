//! The plain values the reader hands out: feature kinds, item summaries,
//! grids, overlays, and decoder configuration data.

use crate::bit::Byte4;
use vstd::prelude::*;

verus! {

/// File-level feature kinds.
#[derive(Debug, Clone, Copy, PartialEq, Eq, Structural)]
pub enum FileFeatureEnum {
    HasSingleImage,
    HasImageCollection,
    HasImageSequence,
    HasRootLevelMetaBox,
    HasAlternateTracks,
}

impl FileFeatureEnum {
    /// The bit this feature occupies in the mask.
    pub open spec fn bit_spec(&self) -> u32 {
        match self {
            FileFeatureEnum::HasSingleImage => 1u32,
            FileFeatureEnum::HasImageCollection => 2u32,
            FileFeatureEnum::HasImageSequence => 4u32,
            FileFeatureEnum::HasRootLevelMetaBox => 8u32,
            FileFeatureEnum::HasAlternateTracks => 16u32,
        }
    }

    pub fn bit(&self) -> (r: u32)
        ensures
            r == self.bit_spec(),
    {
        match self {
            FileFeatureEnum::HasSingleImage => 1,
            FileFeatureEnum::HasImageCollection => 2,
            FileFeatureEnum::HasImageSequence => 4,
            FileFeatureEnum::HasRootLevelMetaBox => 8,
            FileFeatureEnum::HasAlternateTracks => 16,
        }
    }
}

/// Meta-box-level feature kinds.
#[derive(Debug, Clone, Copy, PartialEq, Eq, Structural)]
pub enum MetaBoxFeatureEnum {
    IsSingleImage,
    IsImageCollection,
    HasMasterImages,
    HasThumbnails,
    HasAuxiliaryImages,
    HasDerivedImages,
    HasPreComputedDerivedImages,
    HasHiddenImages,
    HasGroupLists,
}

impl MetaBoxFeatureEnum {
    /// The bit this feature occupies in the mask.
    pub open spec fn bit_spec(&self) -> u32 {
        match self {
            MetaBoxFeatureEnum::IsSingleImage => 1u32,
            MetaBoxFeatureEnum::IsImageCollection => 2u32,
            MetaBoxFeatureEnum::HasMasterImages => 4u32,
            MetaBoxFeatureEnum::HasThumbnails => 8u32,
            MetaBoxFeatureEnum::HasAuxiliaryImages => 16u32,
            MetaBoxFeatureEnum::HasDerivedImages => 32u32,
            MetaBoxFeatureEnum::HasPreComputedDerivedImages => 64u32,
            MetaBoxFeatureEnum::HasHiddenImages => 128u32,
            MetaBoxFeatureEnum::HasGroupLists => 256u32,
        }
    }

    pub fn bit(&self) -> (r: u32)
        ensures
            r == self.bit_spec(),
    {
        match self {
            MetaBoxFeatureEnum::IsSingleImage => 1,
            MetaBoxFeatureEnum::IsImageCollection => 2,
            MetaBoxFeatureEnum::HasMasterImages => 4,
            MetaBoxFeatureEnum::HasThumbnails => 8,
            MetaBoxFeatureEnum::HasAuxiliaryImages => 16,
            MetaBoxFeatureEnum::HasDerivedImages => 32,
            MetaBoxFeatureEnum::HasPreComputedDerivedImages => 64,
            MetaBoxFeatureEnum::HasHiddenImages => 128,
            MetaBoxFeatureEnum::HasGroupLists => 256,
        }
    }
}

/// Item-level feature kinds.
#[derive(Debug, Clone, Copy, PartialEq, Eq, Structural)]
pub enum ItemFeatureEnum {
    IsMasterImage,
    IsThumbnailImage,
    IsAuxiliaryImage,
    IsPrimaryImage,
    IsDerivedImage,
    IsPreComputedDerivedImage,
    IsHiddenImage,
    IsCoverImage,
    IsProtected,
    HasLinkedThumbnails,
    HasLinkedAuxiliaryImage,
    HasLinkedDerivedImage,
    HasLinkedPreComputedDerivedImage,
    HasLinkedTiles,
    HasLinkedMetadata,
    IsTileImageItem,
    IsMetadataItem,
    IsExifItem,
    IsXMPItem,
    IsMPEG7Item,
}

impl ItemFeatureEnum {
    /// The bit this feature occupies in the mask.
    pub open spec fn bit_spec(&self) -> u32 {
        match self {
            ItemFeatureEnum::IsMasterImage => 0x1u32,
            ItemFeatureEnum::IsThumbnailImage => 0x2u32,
            ItemFeatureEnum::IsAuxiliaryImage => 0x4u32,
            ItemFeatureEnum::IsPrimaryImage => 0x8u32,
            ItemFeatureEnum::IsDerivedImage => 0x10u32,
            ItemFeatureEnum::IsPreComputedDerivedImage => 0x20u32,
            ItemFeatureEnum::IsHiddenImage => 0x40u32,
            ItemFeatureEnum::IsCoverImage => 0x80u32,
            ItemFeatureEnum::IsProtected => 0x100u32,
            ItemFeatureEnum::HasLinkedThumbnails => 0x200u32,
            ItemFeatureEnum::HasLinkedAuxiliaryImage => 0x400u32,
            ItemFeatureEnum::HasLinkedDerivedImage => 0x800u32,
            ItemFeatureEnum::HasLinkedPreComputedDerivedImage => 0x1000u32,
            ItemFeatureEnum::HasLinkedTiles => 0x2000u32,
            ItemFeatureEnum::HasLinkedMetadata => 0x4000u32,
            ItemFeatureEnum::IsTileImageItem => 0x8000u32,
            ItemFeatureEnum::IsMetadataItem => 0x1_0000u32,
            ItemFeatureEnum::IsExifItem => 0x2_0000u32,
            ItemFeatureEnum::IsXMPItem => 0x4_0000u32,
            ItemFeatureEnum::IsMPEG7Item => 0x8_0000u32,
        }
    }

    pub fn bit(&self) -> (r: u32)
        ensures
            r == self.bit_spec(),
    {
        match self {
            ItemFeatureEnum::IsMasterImage => 0x1,
            ItemFeatureEnum::IsThumbnailImage => 0x2,
            ItemFeatureEnum::IsAuxiliaryImage => 0x4,
            ItemFeatureEnum::IsPrimaryImage => 0x8,
            ItemFeatureEnum::IsDerivedImage => 0x10,
            ItemFeatureEnum::IsPreComputedDerivedImage => 0x20,
            ItemFeatureEnum::IsHiddenImage => 0x40,
            ItemFeatureEnum::IsCoverImage => 0x80,
            ItemFeatureEnum::IsProtected => 0x100,
            ItemFeatureEnum::HasLinkedThumbnails => 0x200,
            ItemFeatureEnum::HasLinkedAuxiliaryImage => 0x400,
            ItemFeatureEnum::HasLinkedDerivedImage => 0x800,
            ItemFeatureEnum::HasLinkedPreComputedDerivedImage => 0x1000,
            ItemFeatureEnum::HasLinkedTiles => 0x2000,
            ItemFeatureEnum::HasLinkedMetadata => 0x4000,
            ItemFeatureEnum::IsTileImageItem => 0x8000,
            ItemFeatureEnum::IsMetadataItem => 0x1_0000,
            ItemFeatureEnum::IsExifItem => 0x2_0000,
            ItemFeatureEnum::IsXMPItem => 0x4_0000,
            ItemFeatureEnum::IsMPEG7Item => 0x8_0000,
        }
    }
}

/// Track-level feature kinds.
#[derive(Debug, Clone, Copy, PartialEq, Eq, Structural)]
pub enum TrackFeatureEnum {
    IsMasterImageSequence,
    IsThumbnailImageSequence,
    IsAuxiliaryImageSequence,
    IsEnabled,
    IsInMovie,
    IsInPreview,
    HasAlternatives,
}

impl TrackFeatureEnum {
    /// The bit this feature occupies in the mask.
    pub open spec fn bit_spec(&self) -> u32 {
        match self {
            TrackFeatureEnum::IsMasterImageSequence => 1u32,
            TrackFeatureEnum::IsThumbnailImageSequence => 2u32,
            TrackFeatureEnum::IsAuxiliaryImageSequence => 4u32,
            TrackFeatureEnum::IsEnabled => 8u32,
            TrackFeatureEnum::IsInMovie => 16u32,
            TrackFeatureEnum::IsInPreview => 32u32,
            TrackFeatureEnum::HasAlternatives => 64u32,
        }
    }

    pub fn bit(&self) -> (r: u32)
        ensures
            r == self.bit_spec(),
    {
        match self {
            TrackFeatureEnum::IsMasterImageSequence => 1,
            TrackFeatureEnum::IsThumbnailImageSequence => 2,
            TrackFeatureEnum::IsAuxiliaryImageSequence => 4,
            TrackFeatureEnum::IsEnabled => 8,
            TrackFeatureEnum::IsInMovie => 16,
            TrackFeatureEnum::IsInPreview => 32,
            TrackFeatureEnum::HasAlternatives => 64,
        }
    }
}

/// One entity grouping from a `grpl` box.
#[derive(Debug, Default, Clone)]
pub struct EntityGrouping {
    pub group_type: Byte4,
    pub group_id: u32,
    pub entity_ids: Vec<u32>,
}

/// A derived grid image: its layout and the ids of its input images.
#[derive(Debug, Clone)]
pub struct Grid {
    pub output_width: u32,
    pub output_height: u32,
    pub columns: u32,
    pub rows: u32,
    pub image_ids: Vec<u32>,
}

/// A derived overlay image: its canvas, offsets and input image ids.
#[derive(Debug)]
pub struct Overlay {
    pub rgba: (u16, u16, u16, u16),
    pub output_width: u32,
    pub output_height: u32,
    pub offsets: Vec<(i32, i32)>,
    pub image_ids: Vec<u32>,
}

/// The raw layout fields of a `grid` item payload.
#[derive(Debug, Clone, Copy, PartialEq, Eq, Structural)]
pub struct ImageGrid {
    pub rows_minus_one: u8,
    pub columns_minus_one: u8,
    pub output_width: u32,
    pub output_height: u32,
}

/// The parameter-set kinds a decoder configuration may carry.
#[derive(Debug, Clone, Copy, PartialEq, Eq, Structural)]
pub enum DecoderSpecInfoType {
    AvcSPS,
    AvcPPS,
    HevcVPS,
    HevcSPS,
    HevcPPS,
    AudioSpecificConfig,
}

/// One parameter set of a decoder configuration.
#[derive(Debug, Clone)]
pub struct DecoderSpecificInfo {
    pub dec_spec_info_type: DecoderSpecInfoType,
    pub dec_spec_info_data: Vec<u8>,
}

/// A decoder configuration: its property index and its parameter sets.
#[derive(Debug, Clone)]
pub struct DecoderConfiguration {
    pub decoder_config_id: u32,
    pub decoder_specific_info: Vec<DecoderSpecificInfo>,
}

/// The description carried by an item's `infe` entry.
#[derive(Debug, Clone)]
pub struct ItemDescription {
    pub name: String,
    pub content_type: String,
    pub content_encoding: String,
}

/// One item's summary in the reader's catalogue.
#[derive(Debug, Clone)]
pub struct ItemInformation {
    pub item_id: u32,
    pub item_type: Byte4,
    pub description: ItemDescription,
    pub features: u32,
    pub size: u64,
}

/// The meta-box summary the reader hands out.
#[derive(Debug, Default)]
pub struct MetaBoxInformation {
    pub features: u32,
    pub item_informations: Vec<ItemInformation>,
    pub entity_groupings: Vec<EntityGrouping>,
}

/// A rational number as carried by the format.
#[derive(Debug, Clone, Copy, PartialEq, Eq, Structural)]
pub struct Rational {
    pub num: u64,
    pub den: u64,
}

} // verus!
