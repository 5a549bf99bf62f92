use import_converter::entry::{
    build_destination_path, build_file_entry, file_name_of, with_extension, DestinationConfig,
    MaskEntry,
};
use import_converter::resolve::DateSource;
use import_converter::timestamp::Timestamp;

fn ts_2023_07_04() -> Timestamp {
    Timestamp { year: 2023, month: 7, day: 4, hour: 10, minute: 15, second: 0 }
}

fn cfg(reencode_ext: &str) -> DestinationConfig {
    DestinationConfig {
        destination_root: String::from("/dest"),
        path_format: String::from("%Y/%m"),
        filename_prefix: String::from("%Y%m%d_"),
        new_file_extension: String::from(reencode_ext),
    }
}

#[test]
fn template_renders_scenario_formats() {
    let ts = ts_2023_07_04();
    let sub = import_converter::template::render_template(&ts, "%Y/%m");
    assert_eq!(sub, Some(String::from("2023/07")));
    let prefix = import_converter::template::render_template(&ts, "%Y%m%d_");
    assert_eq!(prefix, Some(String::from("20230704_")));
    let time = import_converter::template::render_template(&ts, "%H:%M:%S");
    assert_eq!(time, Some(String::from("10:15:00")));
    let escaped = import_converter::template::render_template(&ts, "%d%%");
    assert_eq!(escaped, Some(String::from("04%")));
}

#[test]
fn template_renders_wider_directives() {
    let ts = ts_2023_07_04();
    let render = |fmt: &str| import_converter::template::render_template(&ts, fmt);
    assert_eq!(render("%y"), Some(String::from("23")));
    assert_eq!(render("%e"), Some(String::from(" 4")));
    assert_eq!(render("%b %B"), Some(String::from("Jul July")));
    assert_eq!(render("%F"), Some(String::from("2023-07-04")));
    assert_eq!(render("%T"), Some(String::from("10:15:00")));
    assert_eq!(render("%D"), Some(String::from("07/04/23")));
    let later = Timestamp { year: 2023, month: 12, day: 25, hour: 0, minute: 0, second: 0 };
    assert_eq!(
        import_converter::template::render_template(&later, "%b %B %e"),
        Some(String::from("Dec December 25"))
    );
}

#[test]
fn template_rejects_unknown_directive() {
    let ts = ts_2023_07_04();
    assert_eq!(import_converter::template::render_template(&ts, "%x"), None);
    assert_eq!(import_converter::template::render_template(&ts, "%Y/%"), None);
}

#[test]
fn destination_path_composed() {
    let ts = ts_2023_07_04();
    let path = build_destination_path(&ts, "photo.jpg", "/dest", "%Y/%m", "%Y%m%d_");
    assert_eq!(path, Some(String::from("/dest/2023/07/20230704_photo.jpg")));
}

#[test]
fn destination_deterministic() {
    let ts = ts_2023_07_04();
    let a = build_destination_path(&ts, "photo.jpg", "/dest", "%Y/%m", "%Y%m%d_");
    let b = build_destination_path(&ts, "photo.jpg", "/dest", "%Y/%m", "%Y%m%d_");
    assert_eq!(a, b);
    assert!(a.is_some());
}

#[test]
fn reencode_extension_replaced() {
    let ts = ts_2023_07_04();
    let mask = MaskEntry { extension: String::from("*.mov"), reencode: true };
    let entry = build_file_entry(
        "clips/video.mov",
        1000,
        &mask,
        ts,
        DateSource::Exif,
        &cfg("m4v"),
    )
    .unwrap();
    assert_eq!(entry.destination_path, "/dest/2023/07/20230704_video.m4v");
    assert!(entry.reencode);
    assert!(!entry.success);
    assert_eq!(entry.len_after_action, 0);

    // a source without any extension still gets the configured one
    let bare = build_file_entry("clips/video", 1000, &mask, ts, DateSource::Exif, &cfg("m4v"))
        .unwrap();
    assert_eq!(bare.destination_path, "/dest/2023/07/20230704_video.m4v");
}

#[test]
fn copy_entry_keeps_source_extension() {
    let ts = ts_2023_07_04();
    let mask = MaskEntry { extension: String::from("*.jpg"), reencode: false };
    let entry = build_file_entry(
        "photos/img.jpg",
        512,
        &mask,
        ts,
        DateSource::FilesystemAttribute,
        &cfg("m4v"),
    )
    .unwrap();
    assert_eq!(entry.destination_path, "/dest/2023/07/20230704_img.jpg");
    assert!(!entry.reencode);
}

#[test]
fn build_file_entry_rejects_bad_template() {
    let ts = ts_2023_07_04();
    let mask = MaskEntry { extension: String::from("*.jpg"), reencode: false };
    let bad = DestinationConfig {
        destination_root: String::from("/dest"),
        path_format: String::from("%Q"),
        filename_prefix: String::from("%Y"),
        new_file_extension: String::from("m4v"),
    };
    assert!(build_file_entry("a.jpg", 1, &mask, ts, DateSource::Exif, &bad).is_none());
}

#[test]
fn identical_renderings_collide() {
    // same timestamp and file name from different source directories
    // land on the same destination; collision handling is the caller's
    let ts = ts_2023_07_04();
    let mask = MaskEntry { extension: String::from("*.jpg"), reencode: false };
    let a = build_file_entry("x/photo.jpg", 1, &mask, ts, DateSource::Exif, &cfg("m4v")).unwrap();
    let b = build_file_entry("y/photo.jpg", 2, &mask, ts, DateSource::Exif, &cfg("m4v")).unwrap();
    assert_eq!(a.destination_path, b.destination_path);
}

#[test]
fn with_extension_cases() {
    assert_eq!(with_extension("a/b.jpg", "mp4"), "a/b.mp4");
    assert_eq!(with_extension("a/b", "mp4"), "a/b.mp4");
    assert_eq!(with_extension("a.b/c", "mp4"), "a.b/c.mp4");
    assert_eq!(with_extension(".bashrc", "mp4"), ".bashrc.mp4");
    assert_eq!(with_extension("x.tar.gz", "zip"), "x.tar.zip");
}

#[test]
fn file_name_extracted() {
    assert_eq!(file_name_of("a/b/c.jpg"), "c.jpg");
    assert_eq!(file_name_of("c.jpg"), "c.jpg");
    assert_eq!(file_name_of("a/"), "");
}
