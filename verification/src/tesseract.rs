//! The OCR facade: wraps the external text-recognition engine over a
//! captured image, with a character whitelist equal to the search text,
//! and derives a containment boolean or bounding-box center coordinates
//! from the reported regions.
use vstd::prelude::*;
use vstd::string::*;

use crate::text::str_eq;

verus! {

/// `image::DynamicImage`, declared so it can stand in this library's
/// signatures and fields; its values are opaque here.
#[verifier::external_type_specification]
#[verifier::external_body]
pub struct ExDynamicImage(image::DynamicImage);

/// `image::ImageError`, declared so decode failures can be returned;
/// its values are opaque here.
#[verifier::external_type_specification]
#[verifier::external_body]
pub struct ExImageError(image::ImageError);

/// `rusty_tesseract::Image`, the OCR engine's input handle; its values
/// are opaque here.
#[verifier::external_type_specification]
#[verifier::external_body]
pub struct ExTessImage(rusty_tesseract::Image);

/// Relies on `image::load_from_memory`: decodes image bytes, guessing
/// the format; `Ok` exactly when the bytes decode as an image, which
/// depends on the enabled codecs, so nothing more is promised.
#[verifier::external_body]
pub(crate) fn load_image_from_memory(bytes: &[u8]) -> Result<
    image::DynamicImage,
    image::ImageError,
> {
    image::load_from_memory(bytes)
}

/// Relies on `image::open`: reads the named file and decodes it as an
/// image; the outcome depends on the file system, so nothing is promised.
#[verifier::external_body]
fn open_image(path: &str) -> Result<image::DynamicImage, image::ImageError> {
    image::open(std::path::Path::new(path))
}

/// Relies on `rusty_tesseract::Image::from_dynamic_image`: stages the
/// image for the OCR engine (via a temporary file); `None` when staging
/// fails, which depends on the file system, so nothing is promised.
#[verifier::external_body]
fn to_tess_image(img: &image::DynamicImage) -> Option<rusty_tesseract::Image> {
    match rusty_tesseract::Image::from_dynamic_image(img) {
        Ok(staged) => Some(staged),
        Err(_) => None,
    }
}

/// One text region reported by the OCR engine: the recognized text and
/// its bounding box in pixel coordinates.
pub struct OcrRegion {
    /// The recognized text of the region.
    pub text: String,
    /// Leftmost pixel column of the bounding box.
    pub left: i32,
    /// Topmost pixel row of the bounding box.
    pub top: i32,
    /// Width of the bounding box in pixels.
    pub width: i32,
    /// Height of the bounding box in pixels.
    pub height: i32,
}

/// Relies on `rusty_tesseract::image_to_data`: runs the OCR engine over
/// the staged image with the given language, dots-per-inch, and a single
/// configuration variable, and reports one record per recognized region.
/// `None` when the engine cannot be spawned, fails, or prints output the
/// crate cannot read; what it recognizes depends on the installed engine,
/// so nothing is promised of the records.
#[verifier::external_body]
fn run_ocr(
    img: &rusty_tesseract::Image,
    lang: &str,
    dpi: i32,
    var_name: &str,
    var_value: &str,
) -> Option<Vec<OcrRegion>> {
    let args = rusty_tesseract::Args {
        lang: lang.to_string(),
        dpi: Some(dpi),
        config_variables: std::collections::HashMap::from(
            [(var_name.to_string(), var_value.to_string())],
        ),
        psm: None,
        oem: None,
    };
    let data_output = rusty_tesseract::image_to_data(img, &args).ok()?;
    Some(data_output.data.into_iter().map(
        |d| OcrRegion { text: d.text, left: d.left, top: d.top, width: d.width, height: d.height },
    ).collect())
}

/// The region's text equals the search text.
pub open spec fn region_text_matches(r: OcrRegion, text: Seq<char>) -> bool {
    r.text@ == text
}

/// The x coordinate of the region's bounding-box center.
pub open spec fn spec_center_x(r: OcrRegion) -> int {
    r.left + r.width / 2
}

/// The y coordinate of the region's bounding-box center.
pub open spec fn spec_center_y(r: OcrRegion) -> int {
    r.top + r.height / 2
}

/// The region's box is well-formed for center computation: width and
/// height are non-negative and both center coordinates fit in an `i32`.
pub open spec fn region_center_fits(r: OcrRegion) -> bool {
    &&& 0 <= r.width
    &&& 0 <= r.height
    &&& spec_center_x(r) <= i32::MAX
    &&& spec_center_y(r) <= i32::MAX
}

/// The center of a recognized region's bounding box.
pub fn region_center(r: &OcrRegion) -> (c: (i32, i32))
    requires
        region_center_fits(*r),
    ensures
        c.0 == spec_center_x(*r),
        c.1 == spec_center_y(*r),
{
    let half_w = ((r.width as u32) / 2) as i32;
    let half_h = ((r.height as u32) / 2) as i32;
    (r.left + half_w, r.top + half_h)
}

/// Every region whose text equals the search text has a well-formed box.
pub open spec fn all_matching_fit(regions: Seq<OcrRegion>, text: Seq<char>) -> bool {
    forall|i: int|
        0 <= i < regions.len() && region_text_matches(#[trigger] regions[i], text)
            ==> region_center_fits(regions[i])
}

/// Decides [`all_matching_fit`] over the reported regions.
pub fn matching_centers_fit(regions: &Vec<OcrRegion>, text: &str) -> (r: bool)
    ensures
        r == all_matching_fit(regions@, text@),
{
    let n = regions.len();
    let mut i: usize = 0;
    while i < n
        invariant
            i <= n == regions@.len(),
            forall|j: int|
                0 <= j < i && region_text_matches(#[trigger] regions@[j], text@)
                    ==> region_center_fits(regions@[j]),
        decreases n - i,
    {
        let r = &regions[i];
        if str_eq(r.text.as_str(), text) {
            if r.width < 0 || r.height < 0 {
                return false;
            }
            let half_w = ((r.width as u32) / 2) as i32;
            let half_h = ((r.height as u32) / 2) as i32;
            if r.left > i32::MAX - half_w || r.top > i32::MAX - half_h {
                return false;
            }
        }
        i = i + 1;
    }
    true
}

/// The x coordinates of the centers of the matching regions, in report
/// order.
pub open spec fn spec_center_xs(regions: Seq<OcrRegion>, text: Seq<char>) -> Seq<int>
    decreases regions.len(),
{
    if regions.len() == 0 {
        Seq::empty()
    } else if region_text_matches(regions.last(), text) {
        spec_center_xs(regions.drop_last(), text).push(spec_center_x(regions.last()))
    } else {
        spec_center_xs(regions.drop_last(), text)
    }
}

/// The y coordinates of the centers of the matching regions, in report
/// order.
pub open spec fn spec_center_ys(regions: Seq<OcrRegion>, text: Seq<char>) -> Seq<int>
    decreases regions.len(),
{
    if regions.len() == 0 {
        Seq::empty()
    } else if region_text_matches(regions.last(), text) {
        spec_center_ys(regions.drop_last(), text).push(spec_center_y(regions.last()))
    } else {
        spec_center_ys(regions.drop_last(), text)
    }
}

/// For every region whose text equals `text`, in the engine's report
/// order, the center of its bounding box: the x coordinates and the y
/// coordinates as parallel vectors.
pub fn matching_centers(regions: &Vec<OcrRegion>, text: &str) -> (r: (Vec<i32>, Vec<i32>))
    requires
        all_matching_fit(regions@, text@),
    ensures
        r.0@.map_values(|v: i32| v as int) == spec_center_xs(regions@, text@),
        r.1@.map_values(|v: i32| v as int) == spec_center_ys(regions@, text@),
{
    let n = regions.len();
    let mut xs: Vec<i32> = Vec::new();
    let mut ys: Vec<i32> = Vec::new();
    let mut i: usize = 0;
    proof {
        assert(regions@.subrange(0, 0) =~= Seq::<OcrRegion>::empty());
        assert(xs@.map_values(|v: i32| v as int) =~= Seq::<int>::empty());
        assert(ys@.map_values(|v: i32| v as int) =~= Seq::<int>::empty());
    }
    while i < n
        invariant
            i <= n == regions@.len(),
            all_matching_fit(regions@, text@),
            xs@.map_values(|v: i32| v as int) == spec_center_xs(regions@.subrange(0, i as int), text@),
            ys@.map_values(|v: i32| v as int) == spec_center_ys(regions@.subrange(0, i as int), text@),
        decreases n - i,
    {
        let r = &regions[i];
        proof {
            assert(regions@.subrange(0, i + 1).drop_last() =~= regions@.subrange(0, i as int));
            assert(regions@.subrange(0, i + 1).last() == regions@[i as int]);
        }
        if str_eq(r.text.as_str(), text) {
            let c = region_center(r);
            xs.push(c.0);
            ys.push(c.1);
            proof {
                assert(xs@.map_values(|v: i32| v as int) =~= spec_center_xs(
                    regions@.subrange(0, i + 1),
                    text@,
                ));
                assert(ys@.map_values(|v: i32| v as int) =~= spec_center_ys(
                    regions@.subrange(0, i + 1),
                    text@,
                ));
            }
        }
        i = i + 1;
    }
    proof {
        assert(regions@.subrange(0, n as int) =~= regions@);
    }
    (xs, ys)
}

/// Some reported region's text equals the search text.
pub fn any_region_has_text(regions: &Vec<OcrRegion>, text: &str) -> (r: bool)
    ensures
        r == exists|i: int|
            0 <= i < regions@.len() && region_text_matches(#[trigger] regions@[i], text@),
{
    let n = regions.len();
    let mut i: usize = 0;
    while i < n
        invariant
            i <= n == regions@.len(),
            forall|j: int| 0 <= j < i ==> !region_text_matches(#[trigger] regions@[j], text@),
        decreases n - i,
    {
        if str_eq(regions[i].text.as_str(), text) {
            return true;
        }
        i = i + 1;
    }
    false
}

/// The fixed configuration the OCR facade runs the engine with: language
/// `eng`, 120 dots per inch, and the engine's character-whitelist
/// variable, whose value each call sets to exactly the search text.
pub fn ocr_config() -> (r: (String, i32, String))
    ensures
        r.0@ == "eng"@,
        r.1 == 120,
        r.2@ == "tessedit_char_whitelist"@,
{
    (String::from_str("eng"), 120, String::from_str("tessedit_char_whitelist"))
}

/// What the presence decision yields for each possible engine outcome:
/// false when the engine could not run, else whether some reported
/// region's text equals the search text.
pub fn contains_in_regions(regions: &Option<Vec<OcrRegion>>, text: &str) -> (r: bool)
    ensures
        r == (match regions {
            Some(rs) => exists|i: int|
                0 <= i < rs@.len() && region_text_matches(#[trigger] rs@[i], text@),
            None => false,
        }),
{
    match regions {
        Some(rs) => any_region_has_text(rs, text),
        None => false,
    }
}

/// What the position computation yields for each possible engine outcome:
/// no result when the engine could not run or some matching box's center
/// would overflow, else exactly the matching centers in report order.
pub fn positions_in_regions(regions: Option<Vec<OcrRegion>>, text: &str) -> (r: Option<
    (Vec<i32>, Vec<i32>),
>)
    ensures
        r is Some <==> (regions matches Some(rs) && all_matching_fit(rs@, text@)),
        r matches Some(p) ==> (regions matches Some(rs) && p.0@.map_values(|v: i32| v as int)
            == spec_center_xs(rs@, text@) && p.1@.map_values(|v: i32| v as int) == spec_center_ys(
            rs@,
            text@,
        )),
{
    match regions {
        Some(rs) => {
            if matching_centers_fit(&rs, text) {
                Some(matching_centers(&rs, text))
            } else {
                None
            }
        },
        None => None,
    }
}

/// An in-memory image the OCR engine can be run over.
pub struct TesseractImage {
    dynamic_image: image::DynamicImage,
}

impl TesseractImage {
    /// Wraps an already-decoded image.
    pub fn from_dynamic_image(dynamic_image: image::DynamicImage) -> Self {
        TesseractImage { dynamic_image }
    }

    /// Reads and decodes the named image file.
    pub fn from(path: String) -> Result<Self, image::ImageError> {
        match open_image(path.as_str()) {
            Ok(dynamic_image) => Ok(TesseractImage { dynamic_image }),
            Err(e) => Err(e),
        }
    }

    /// Decodes an image from raw bytes.
    pub fn from_bytes(bytes: Vec<u8>) -> Result<Self, image::ImageError> {
        match load_image_from_memory(bytes.as_slice()) {
            Ok(dynamic_image) => Ok(TesseractImage { dynamic_image }),
            Err(e) => Err(e),
        }
    }

    /// Runs the OCR engine over the image with the [`ocr_config`]
    /// settings, the whitelist set to exactly the search text; `None`
    /// when the image cannot be staged or the engine cannot be run.
    fn data_regions(&self, text: &str) -> Option<Vec<OcrRegion>> {
        let staged = match to_tess_image(&self.dynamic_image) {
            Some(staged) => staged,
            None => {
                return None;
            },
        };
        let (lang, dpi, whitelist_var) = ocr_config();
        run_ocr(&staged, lang.as_str(), dpi, whitelist_var.as_str(), text)
    }

    /// True iff some region the engine recognizes equals `text` exactly;
    /// false when the engine cannot be staged or run, with no distinction
    /// from "not found". The decision over the engine's outcome is
    /// [`contains_in_regions`].
    pub fn contains_text(&self, text: &str) -> bool {
        let regions = self.data_regions(text);
        contains_in_regions(&regions, text)
    }

    /// The bounding-box centers of every recognized region equal to
    /// `text`, as parallel x and y vectors in report order; `None` when
    /// the engine cannot be staged or run. `None` also when a reported
    /// box's center would overflow an `i32`: a deliberate guard, stated
    /// here, where unchecked arithmetic would otherwise wrap or panic —
    /// on such a degenerate box this returns no result even though the
    /// presence test may still report true. The computation over the
    /// engine's outcome is [`positions_in_regions`].
    pub fn xy_positions_of(&self, text: &str) -> Option<(Vec<i32>, Vec<i32>)> {
        positions_in_regions(self.data_regions(text), text)
    }
}

} // verus!
