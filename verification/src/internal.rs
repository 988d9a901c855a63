//! Feature sets derived after a parse: per-file, per-track, per-meta-box
//! and per-item flags, each kept as the bitmask its feature values define.

use crate::data::{FileFeatureEnum, ItemFeatureEnum, MetaBoxFeatureEnum, TrackFeatureEnum};
use vstd::prelude::*;

verus! {

/// The features of a file, as a bitmask.
#[derive(Debug, Default, Clone, Copy, PartialEq, Eq, Structural)]
pub struct FileFeature {
    pub mask: u32,
}

impl FileFeature {
    pub fn has_feature(&self, feature: FileFeatureEnum) -> (r: bool)
        ensures
            r == (self.mask & feature.bit_spec() != 0),
    {
        self.mask & feature.bit() != 0
    }

    pub fn set_feature(&mut self, feature: FileFeatureEnum)
        ensures
            final(self).mask == old(self).mask | feature.bit_spec(),
    {
        self.mask = self.mask | feature.bit();
    }

    pub fn feature_mask(&self) -> (r: u32)
        ensures
            r == self.mask,
    {
        self.mask
    }
}

/// The features of a track, as a bitmask.
#[derive(Debug, Default, Clone, Copy, PartialEq, Eq, Structural)]
pub struct TrackFeature {
    pub mask: u32,
}

impl TrackFeature {
    pub fn has_feature(&self, feature: TrackFeatureEnum) -> (r: bool)
        ensures
            r == (self.mask & feature.bit_spec() != 0),
    {
        self.mask & feature.bit() != 0
    }

    pub fn set_feature(&mut self, feature: TrackFeatureEnum)
        ensures
            final(self).mask == old(self).mask | feature.bit_spec(),
    {
        self.mask = self.mask | feature.bit();
    }

    pub fn feature_mask(&self) -> (r: u32)
        ensures
            r == self.mask,
    {
        self.mask
    }
}

/// The features of a meta box, as a bitmask.
#[derive(Debug, Default, Clone, Copy, PartialEq, Eq, Structural)]
pub struct MetaBoxFeature {
    pub mask: u32,
}

impl MetaBoxFeature {
    pub fn has_feature(&self, feature: MetaBoxFeatureEnum) -> (r: bool)
        ensures
            r == (self.mask & feature.bit_spec() != 0),
    {
        self.mask & feature.bit() != 0
    }

    pub fn set_feature(&mut self, feature: MetaBoxFeatureEnum)
        ensures
            final(self).mask == old(self).mask | feature.bit_spec(),
    {
        self.mask = self.mask | feature.bit();
    }

    pub fn feature_mask(&self) -> (r: u32)
        ensures
            r == self.mask,
    {
        self.mask
    }
}

/// The features of one item, as a bitmask.
#[derive(Debug, Default, Clone, Copy, PartialEq, Eq, Structural)]
pub struct ItemFeature {
    pub mask: u32,
}

impl ItemFeature {
    pub fn has_feature(&self, feature: ItemFeatureEnum) -> (r: bool)
        ensures
            r == (self.mask & feature.bit_spec() != 0),
    {
        self.mask & feature.bit() != 0
    }

    pub fn set_feature(&mut self, feature: ItemFeatureEnum)
        ensures
            final(self).mask == old(self).mask | feature.bit_spec(),
    {
        self.mask = self.mask | feature.bit();
    }

    pub fn feature_mask(&self) -> (r: u32)
        ensures
            r == self.mask,
    {
        self.mask
    }
}

/// The features of a whole meta box together with each item's features.
#[derive(Debug, Default)]
pub struct MetaBoxProperties {
    pub context_id: u32,
    pub meta_box_feature: MetaBoxFeature,
    pub item_features_map: Vec<(u32, ItemFeature)>,
    pub entity_groupings: Vec<crate::data::EntityGrouping>,
}

} // verus!
