use bmpfntgen::{make_image_output_path, make_metadata_output_path, ImageFormat, MetaFormat};

#[test]
fn make_png_path() {
    let name = "test_file";
    let format = ImageFormat::PNG;
    let path = "./";

    let result = make_image_output_path(&format, name, path);
    assert_eq!(result, "./test_file.png");
}

#[test]
fn image_path_has_the_ending_of_each_container() {
    assert_eq!(make_image_output_path(&ImageFormat::PNG, "strip", "out/"), "out/strip.png");
    assert_eq!(make_image_output_path(&ImageFormat::BMP, "strip", "out/"), "out/strip.bmp");
    assert_eq!(make_image_output_path(&ImageFormat::TIFF, "strip", "out/"), "out/strip.tiff");
    assert_eq!(make_image_output_path(&ImageFormat::JPEG, "strip", "out/"), "out/strip.jpg");
    assert_eq!(make_image_output_path(&ImageFormat::ICO, "strip", "out/"), "out/strip.ico");
}

#[test]
fn metadata_path_ends_in_json() {
    assert_eq!(make_metadata_output_path(&MetaFormat::Default, "test_file", "./"), "./test_file.json");
}

#[test]
fn image_and_metadata_share_directory_and_base_name() {
    let image = make_image_output_path(&ImageFormat::TIFF, "font", "/tmp/atlas/");
    let meta = make_metadata_output_path(&MetaFormat::Default, "font", "/tmp/atlas/");
    assert_eq!(image.strip_suffix(".tiff"), Some("/tmp/atlas/font"));
    assert_eq!(meta.strip_suffix(".json"), Some("/tmp/atlas/font"));
}

#[test]
fn empty_parts_leave_only_the_ending() {
    assert_eq!(make_image_output_path(&ImageFormat::PNG, "", ""), ".png");
    assert_eq!(make_metadata_output_path(&MetaFormat::Default, "", ""), ".json");
}
