use dark_instruments::toolkit::image::{
    any_region_has_text, contains_in_regions, matching_centers, matching_centers_fit, ocr_config,
    positions_in_regions, region_center, OcrRegion, TesseractImage,
};

fn region(text: &str, left: i32, top: i32, width: i32, height: i32) -> OcrRegion {
    OcrRegion {
        text: String::from(text),
        left,
        top,
        width,
        height,
    }
}

#[test]
fn center_of_a_region() {
    let r = region("go", 10, 20, 30, 40);
    let c = region_center(&r);
    assert_eq!(c, (25, 40));
}

#[test]
fn centers_of_matching_regions_stay_in_report_order() {
    let regions = vec![
        region("go", 10, 20, 30, 40),
        region("stop", 0, 0, 2, 2),
        region("go", 100, 200, 10, 10),
    ];
    assert!(matching_centers_fit(&regions, "go"));
    let (xs, ys) = matching_centers(&regions, "go");
    assert_eq!(xs, vec![25, 105]);
    assert_eq!(ys, vec![40, 205]);
}

#[test]
fn no_matching_region_yields_empty_parallel_vectors() {
    let regions = vec![region("stop", 0, 0, 2, 2)];
    let (xs, ys) = matching_centers(&regions, "go");
    assert!(xs.is_empty());
    assert!(ys.is_empty());
}

#[test]
fn text_match_is_exact() {
    let regions = vec![region("gone", 0, 0, 2, 2), region("g", 0, 0, 2, 2)];
    assert!(!any_region_has_text(&regions, "go"));
    let regions2 = vec![region("gone", 0, 0, 2, 2), region("go", 0, 0, 2, 2)];
    assert!(any_region_has_text(&regions2, "go"));
}

#[test]
fn overflowing_boxes_are_detected() {
    let regions = vec![region("go", i32::MAX, 0, 4, 4)];
    assert!(!matching_centers_fit(&regions, "go"));
    // a non-matching region's box does not matter
    assert!(matching_centers_fit(&regions, "stop"));
}

#[test]
fn undecodable_bytes_are_rejected() {
    assert!(TesseractImage::from_bytes(vec![1, 2, 3, 4]).is_err());
}

#[test]
fn decodable_bytes_are_accepted() {
    let img = image::DynamicImage::new_rgba8(2, 2);
    let mut bytes: Vec<u8> = Vec::new();
    img.write_to(
        &mut std::io::Cursor::new(&mut bytes),
        image::ImageFormat::Png,
    )
    .expect("encoding a tiny image succeeds");
    assert!(TesseractImage::from_bytes(bytes).is_ok());
}

#[test]
fn engine_failure_yields_false_and_no_result() {
    assert!(!contains_in_regions(&None, "go"));
    assert!(positions_in_regions(None, "go").is_none());
}

#[test]
fn engine_outcomes_compose_exactly() {
    let regions = vec![region("go", 10, 20, 30, 40), region("stop", 0, 0, 2, 2)];
    assert!(contains_in_regions(&Some(regions), "go"));
    let regions2 = vec![region("go", 10, 20, 30, 40)];
    let (xs, ys) = positions_in_regions(Some(regions2), "go").unwrap();
    assert_eq!(xs, vec![25]);
    assert_eq!(ys, vec![40]);
    // an overflowing matching box yields no result, not a panic
    let bad = vec![region("go", i32::MAX, 0, 4, 4)];
    assert!(positions_in_regions(Some(bad), "go").is_none());
}

#[test]
fn engine_configuration_is_fixed() {
    let (lang, dpi, whitelist_var) = ocr_config();
    assert_eq!(lang, "eng");
    assert_eq!(dpi, 120);
    assert_eq!(whitelist_var, "tessedit_char_whitelist");
}
