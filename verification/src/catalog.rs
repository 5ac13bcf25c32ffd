//! The fixed-size named assets: ICU data tables and ICC color profiles.
//!
//! Each asset is an immutable named binary blob. The catalog is built once,
//! at process start, from the loaded asset bytes, and hands out each buffer
//! unchanged; its invariant keeps every buffer non-empty.

use vstd::prelude::*;

verus! {

/// The mathematical content of a catalog: one byte sequence per named asset.
pub ghost struct CatalogView {
    pub icu: Seq<u8>,
    pub icu_cj_segment: Seq<u8>,
    pub cmyk_to_xyz: Seq<u8>,
    pub s_grey_v4: Seq<u8>,
    pub s_rgb_v4: Seq<u8>,
}

/// The named constant assets, loaded once and never mutated. Every buffer
/// the catalog hands out is exactly the buffer it was built from.
pub struct AssetCatalog {
    icu: Vec<u8>,
    icu_cj_segment: Vec<u8>,
    cmyk_to_xyz: Vec<u8>,
    s_grey_v4: Vec<u8>,
    s_rgb_v4: Vec<u8>,
}

impl View for AssetCatalog {
    type V = CatalogView;

    closed spec fn view(&self) -> CatalogView {
        CatalogView {
            icu: self.icu@,
            icu_cj_segment: self.icu_cj_segment@,
            cmyk_to_xyz: self.cmyk_to_xyz@,
            s_grey_v4: self.s_grey_v4@,
            s_rgb_v4: self.s_rgb_v4@,
        }
    }
}

impl AssetCatalog {
    /// Every named asset buffer is non-empty.
    pub open spec fn wf(self) -> bool {
        &&& self@.icu.len() > 0
        &&& self@.icu_cj_segment.len() > 0
        &&& self@.cmyk_to_xyz.len() > 0
        &&& self@.s_grey_v4.len() > 0
        &&& self@.s_rgb_v4.len() > 0
    }

    /// Builds the catalog from the loaded asset bytes. An empty buffer
    /// reports a packaging fault and is rejected, so a catalog never holds
    /// one; otherwise every buffer is stored unchanged.
    pub fn new(
        icu: Vec<u8>,
        icu_cj_segment: Vec<u8>,
        cmyk_to_xyz: Vec<u8>,
        s_grey_v4: Vec<u8>,
        s_rgb_v4: Vec<u8>,
    ) -> (r: Option<AssetCatalog>)
        ensures
            r is Some <==> (icu@.len() > 0 && icu_cj_segment@.len() > 0 && cmyk_to_xyz@.len() > 0
                && s_grey_v4@.len() > 0 && s_rgb_v4@.len() > 0),
            r matches Some(c) ==> {
                &&& c.wf()
                &&& c@.icu == icu@
                &&& c@.icu_cj_segment == icu_cj_segment@
                &&& c@.cmyk_to_xyz == cmyk_to_xyz@
                &&& c@.s_grey_v4 == s_grey_v4@
                &&& c@.s_rgb_v4 == s_rgb_v4@
            },
    {
        if icu.len() == 0 || icu_cj_segment.len() == 0 || cmyk_to_xyz.len() == 0
            || s_grey_v4.len() == 0 || s_rgb_v4.len() == 0 {
            None
        } else {
            Some(AssetCatalog { icu, icu_cj_segment, cmyk_to_xyz, s_grey_v4, s_rgb_v4 })
        }
    }

    /// The ICU data table for general internationalization.
    pub fn icu(&self) -> (r: &Vec<u8>)
        requires
            self.wf(),
        ensures
            r@ == self@.icu,
            r@.len() > 0,
    {
        &self.icu
    }

    /// The ICU line-segmentation data for Chinese and Japanese.
    pub fn icu_cj_segment(&self) -> (r: &Vec<u8>)
        requires
            self.wf(),
        ensures
            r@ == self@.icu_cj_segment,
            r@.len() > 0,
    {
        &self.icu_cj_segment
    }

    /// The ICC profile used to convert from CMYK to RGB.
    pub fn cmyk_to_xyz(&self) -> (r: &Vec<u8>)
        requires
            self.wf(),
        ensures
            r@ == self@.cmyk_to_xyz,
            r@.len() > 0,
    {
        &self.cmyk_to_xyz
    }

    /// The sGrey v4 ICC profile.
    pub fn s_grey_v4(&self) -> (r: &Vec<u8>)
        requires
            self.wf(),
        ensures
            r@ == self@.s_grey_v4,
            r@.len() > 0,
    {
        &self.s_grey_v4
    }

    /// The sRGB v4 ICC profile.
    pub fn s_rgb_v4(&self) -> (r: &Vec<u8>)
        requires
            self.wf(),
        ensures
            r@ == self@.s_rgb_v4,
            r@.len() > 0,
    {
        &self.s_rgb_v4
    }
}

} // verus!
