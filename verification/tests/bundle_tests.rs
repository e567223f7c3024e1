use std::path::PathBuf;

use openfx_playground::bundle::{
    BuildOptions, Info, Target, Targets, build_info_plist, build_targets, built_library_path,
    bundle_architecture, bundle_layout, cargo_build_args, macos_aarch64, macos_x86_64, profile_dir,
};

#[test]
fn known_targets() {
    let t = Target::from_triple("x86_64-unknown-linux-gnu").unwrap();
    assert_eq!(t.library_prefix, "lib");
    assert_eq!(t.library_extension, "so");
    assert_eq!(t.ofx_architecture, "Linux-x86-64");
    let t = Target::from_triple("x86_64-pc-windows-msvc").unwrap();
    assert_eq!(t.library_prefix, "");
    assert_eq!(t.ofx_architecture, "Win64");
    assert_eq!(Target::from_triple("aarch64-apple-darwin").unwrap().ofx_architecture, "MacOS");
    assert!(Target::from_triple("riscv64gc-unknown-linux-gnu").is_none());
}

#[test]
fn options_from_command_line_values() {
    let o = BuildOptions::from_parts(true, false, "i686-pc-windows-msvc", PathBuf::from("out")).unwrap();
    assert!(o.release_mode);
    assert!(!o.macos_universal);
    assert!(matches!(o.targets, Targets::Single(t) if t.target_triple == "i686-pc-windows-msvc"));
    assert_eq!(o.output_dir, PathBuf::from("out"));
    let o = BuildOptions::from_parts(false, true, "not a triple", PathBuf::from("b")).unwrap();
    assert!(matches!(o.targets, Targets::MacOSUniversal));
    assert!(BuildOptions::from_parts(false, false, "not a triple", PathBuf::from("b")).is_none());
}

#[test]
fn universal_builds_compile_both_macos_targets() {
    let v = build_targets(Targets::MacOSUniversal);
    assert_eq!(v.len(), 2);
    assert_eq!(v[0].target_triple, macos_x86_64().target_triple);
    assert_eq!(v[1].target_triple, macos_aarch64().target_triple);
    assert_eq!(bundle_architecture(Targets::MacOSUniversal), "MacOS");
    let linux = Target::from_triple("i686-unknown-linux-gnu").unwrap();
    assert_eq!(build_targets(Targets::Single(linux)).len(), 1);
    assert_eq!(bundle_architecture(Targets::Single(linux)), "Linux-x86");
}

#[test]
fn cargo_arguments() {
    let t = Target::from_triple("x86_64-unknown-linux-gnu").unwrap();
    assert_eq!(
        cargo_build_args("ofx-guide-1-basic-machinery", &t, false),
        vec!["build", "--package=ofx-guide-1-basic-machinery", "--lib", "--target", "x86_64-unknown-linux-gnu"]
    );
    assert_eq!(
        cargo_build_args("p", &t, true),
        vec!["build", "--package=p", "--lib", "--target", "x86_64-unknown-linux-gnu", "--release"]
    );
    assert_eq!(profile_dir(true), "release");
    assert_eq!(profile_dir(false), "debug");
}

#[test]
fn built_library_location() {
    let t = Target::from_triple("x86_64-pc-windows-msvc").unwrap();
    assert_eq!(
        built_library_path(&t, "ofx_guide_1_basic_machinery", true),
        vec!["target", "x86_64-pc-windows-msvc", "release", "ofx_guide_1_basic_machinery"]
    );
    let t = macos_aarch64();
    assert_eq!(built_library_path(&t, "x", false), vec!["target", "aarch64-apple-darwin", "debug", "libx"]);
}

#[test]
fn linux_bundle_layout() {
    let l = bundle_layout("OfxGuide1", "Linux-x86-64", "org.openeffects.BasicExamplePlugin");
    assert_eq!(l.contents_dir, vec!["OfxGuide1.ofx.bundle", "Contents"]);
    assert_eq!(l.binary, vec!["OfxGuide1.ofx.bundle", "Contents", "Linux-x86-64", "OfxGuide1.ofx"]);
    assert_eq!(l.resources_dir, vec!["OfxGuide1.ofx.bundle", "Contents", "Resources"]);
    assert!(l.info_plist.is_none());
    assert_eq!(l.icon_source, "icon.png");
    assert_eq!(
        l.icon,
        vec!["OfxGuide1.ofx.bundle", "Contents", "Resources", "org.openeffects.BasicExamplePlugin.png"]
    );
}

#[test]
fn macos_bundle_layout() {
    let l = bundle_layout("B", "MacOS", "icon");
    assert_eq!(l.info_plist, Some(vec!["B.ofx.bundle".to_string(), "Contents".to_string(), "Info.plist".to_string()]));
    assert_eq!(l.icon_source, "macos_icon.png");
    assert_eq!(l.binary, vec!["B.ofx.bundle", "Contents", "MacOS", "B.ofx"]);
}

#[test]
fn info_plist_contents_in_order() {
    let info = Info {
        bundle_identifier: "umajho.openfx-playground.learning.guide-1",
        human_readable_copyright: "© Umaĵo",
    };
    let v = build_info_plist(&info, "0.1.0");
    let d = v.as_dictionary().unwrap();
    let entries: Vec<(String, String)> = d
        .iter()
        .map(|(k, v)| (k.clone(), v.as_string().unwrap().to_string()))
        .collect();
    let expected: Vec<(String, String)> = [
        ("CFBundleInfoDictionaryVersion", "6.0"),
        ("CFBundleDevelopmentRegion", "en"),
        ("CFBundlePackageType", "BNDL"),
        ("CFBundleIdentifier", "umajho.openfx-playground.learning.guide-1"),
        ("CFBundleVersion", "0.1.0"),
        ("CFBundleShortVersionString", "0.1.0"),
        ("NSHumanReadableCopyright", "© Umaĵo"),
        ("CFBundleSignature", "????"),
    ]
    .iter()
    .map(|(k, v)| (k.to_string(), v.to_string()))
    .collect();
    assert_eq!(entries, expected);
}
