use dark_instruments::toolkit::image::save_dynamic_image_as_png;

#[test]
fn saving_reports_the_given_path() {
    let img = image::DynamicImage::new_rgba8(2, 2);
    let path = "/tmp/dark_instruments_test_save.png";
    let saved = save_dynamic_image_as_png(&img, path).expect("saving to a writable path");
    assert_eq!(saved, path);
}

#[test]
fn saving_to_an_impossible_path_fails() {
    let img = image::DynamicImage::new_rgba8(2, 2);
    match save_dynamic_image_as_png(&img, "/nonexistent_dir_zzz/x.png") {
        Err(e) => assert_eq!(e.message(), "Failed to save image"),
        Ok(_) => panic!("expected a save failure"),
    }
}
