//! Image handling: decoding, persistence, and OCR text location.
pub use crate::tesseract::any_region_has_text;
pub use crate::tesseract::contains_in_regions;
pub use crate::tesseract::matching_centers;
pub use crate::tesseract::matching_centers_fit;
pub use crate::tesseract::ocr_config;
pub use crate::tesseract::positions_in_regions;
pub use crate::tesseract::region_center;
pub use crate::tesseract::OcrRegion;
pub use crate::tesseract::TesseractImage;
pub use crate::utils::save_dynamic_image_as_png;
