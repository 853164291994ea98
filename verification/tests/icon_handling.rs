use grinta::bundles::{
    app_name_from_path, app_path_from_resources, has_icns_extension, icns_read_error_message,
    mdls_name_prefix, parent_dir, parse_mdls_names, remove_all,
};
use grinta::icons::{app_info_for, icon_png_from_icns_bytes};
use tauri_icns::{IconFamily, IconType, Image, PixelFormat};

#[test]
fn parent_walks_one_component() {
    assert_eq!(parent_dir("/a/b/c"), Some("/a/b"));
    assert_eq!(parent_dir("abc"), None);
    assert_eq!(parent_dir("/abc"), Some(""));
}

#[test]
fn resources_path_walks_to_the_bundle() {
    assert_eq!(
        app_path_from_resources("/Applications/Foo.app/Contents/Resources"),
        Some("/Applications/Foo.app")
    );
    assert_eq!(app_path_from_resources("Resources"), None);
}

#[test]
fn icns_extension_check() {
    assert!(has_icns_extension("icon.icns"));
    assert!(has_icns_extension("a.b.icns"));
    assert!(!has_icns_extension("icon.png"));
    assert!(!has_icns_extension(".icns"));
    assert!(!has_icns_extension("icns"));
    assert!(!has_icns_extension("icon.ICNS"));
}

#[test]
fn bundle_names_drop_every_app_suffix() {
    assert_eq!(app_name_from_path("/Applications/Foo.app"), "Foo");
    assert_eq!(app_name_from_path("Bar.app"), "Bar");
    assert_eq!(app_name_from_path("/x/My.app.app"), "My");
    assert_eq!(app_name_from_path("/Applications/Foo.app/"), "unknown");
    assert_eq!(remove_all("a.appb.appc", ".app"), "abc");
}

#[test]
fn mdls_output_pairs_names_with_bundles() {
    let lines = vec![
        format!("{}Finder\"", mdls_name_prefix()),
        "garbage line".to_string(),
        format!("{}Safari\"", mdls_name_prefix()),
    ];
    assert_eq!(
        parse_mdls_names(&lines, 3),
        vec![Some("Finder".to_string()), Some("Safari".to_string()), None]
    );
    assert_eq!(parse_mdls_names(&lines, 1), vec![Some("Finder".to_string())]);
    assert_eq!(parse_mdls_names(&Vec::new(), 2), vec![None, None]);
}

#[test]
fn icns_parse_failure_is_reported() {
    let err = icon_png_from_icns_bytes(&b"not an icns file at all".to_vec()).unwrap_err();
    assert!(err.starts_with("Failed to parse ICNS data: "));
}

#[test]
fn icns_container_yields_a_png() {
    let mut family = IconFamily::new();
    let image = Image::new(PixelFormat::RGBA, 16, 16);
    family
        .add_icon_with_type(&image, IconType::RGBA32_16x16)
        .unwrap();
    let mut bytes: Vec<u8> = Vec::new();
    family.write(&mut bytes).unwrap();

    let png = icon_png_from_icns_bytes(&bytes).unwrap().unwrap();
    // The chosen icon is re-encoded as PNG.
    assert_eq!(&png[0..8], &[0x89, 0x50, 0x4E, 0x47, 0x0D, 0x0A, 0x1A, 0x0A]);
}

#[test]
fn icns_selection_prefers_larger_icons() {
    // A container holding both a preferred 256-pixel icon and a 16-pixel
    // icon reachable only through the fallback list: the preferred one
    // must win.
    let mut family = IconFamily::new();
    let small = Image::new(PixelFormat::RGBA, 16, 16);
    let large = Image::new(PixelFormat::RGBA, 256, 256);
    family
        .add_icon_with_type(&small, IconType::RGBA32_16x16)
        .unwrap();
    family
        .add_icon_with_type(&large, IconType::RGBA32_256x256)
        .unwrap();
    let mut bytes: Vec<u8> = Vec::new();
    family.write(&mut bytes).unwrap();

    let mut expected: Vec<u8> = Vec::new();
    family
        .get_icon_with_type(IconType::RGBA32_256x256)
        .unwrap()
        .write_png(&mut expected)
        .unwrap();

    let png = icon_png_from_icns_bytes(&bytes).unwrap().unwrap();
    assert_eq!(png, expected);
}

#[test]
fn icns_fallback_reaches_unpreferred_types() {
    // A container whose only icon sits outside the preferred codes is
    // still found through the container's own list.
    let mut family = IconFamily::new();
    let small = Image::new(PixelFormat::RGBA, 16, 16);
    family
        .add_icon_with_type(&small, IconType::RGBA32_16x16)
        .unwrap();
    let mut bytes: Vec<u8> = Vec::new();
    family.write(&mut bytes).unwrap();

    let mut expected: Vec<u8> = Vec::new();
    family
        .get_icon_with_type(IconType::RGBA32_16x16)
        .unwrap()
        .write_png(&mut expected)
        .unwrap();

    assert_eq!(icon_png_from_icns_bytes(&bytes).unwrap().unwrap(), expected);
}

#[test]
fn empty_icns_container_yields_nothing() {
    let family = IconFamily::new();
    let mut bytes: Vec<u8> = Vec::new();
    family.write(&mut bytes).unwrap();
    assert_eq!(icon_png_from_icns_bytes(&bytes).unwrap(), None);
}

#[test]
fn app_entries_carry_data_urls_and_names() {
    let with_icon = app_info_for(Some(b"Man".to_vec()), None, "Foo");
    assert_eq!(with_icon.base64Image, "data:image/png;base64,TWFu");
    assert_eq!(with_icon.localizedName, "Foo");

    let without_icon = app_info_for(None, Some("Localized".to_string()), "Foo");
    assert_eq!(without_icon.base64Image, "");
    assert_eq!(without_icon.localizedName, "Localized");
}

#[test]
fn icns_read_errors_name_the_path() {
    assert_eq!(
        icns_read_error_message("permission denied", "/tmp/icon.icns"),
        "Failed to read ICNS file: permission denied for path /tmp/icon.icns"
    );
}
