//! The decisions of the plugin bundler: which targets to build, how cargo is
//! invoked, where the built library is found, how the OpenFX bundle is laid
//! out, and what the macOS `Info.plist` holds.

use vstd::prelude::*;
use vstd::string::*;
use crate::text::str_eq;

verus! {

#[verifier::external_type_specification]
#[verifier::external_body]
pub struct ExPathBuf(std::path::PathBuf);

#[verifier::external_type_specification]
#[verifier::external_body]
pub struct ExPlistDictionary(plist::Dictionary);

#[verifier::external_type_specification]
#[verifier::external_body]
pub struct ExPlistValue(plist::Value);

/// A target the plugins can be built for, with the library naming of its
/// platform and the OpenFX architecture directory its binary goes in.
#[derive(Clone, Copy, Debug)]
pub struct Target {
    pub target_triple: &'static str,
    pub library_prefix: &'static str,
    pub library_extension: &'static str,
    pub ofx_architecture: &'static str,
}

pub open spec fn spec_macos_x86_64() -> Target {
    Target {
        target_triple: "x86_64-apple-darwin",
        library_prefix: "lib",
        library_extension: "dylib",
        ofx_architecture: "MacOS",
    }
}

pub open spec fn spec_macos_aarch64() -> Target {
    Target {
        target_triple: "aarch64-apple-darwin",
        library_prefix: "lib",
        library_extension: "dylib",
        ofx_architecture: "MacOS",
    }
}

/// The Intel macOS target.
pub fn macos_x86_64() -> (t: Target)
    ensures
        t == spec_macos_x86_64(),
{
    Target {
        target_triple: "x86_64-apple-darwin",
        library_prefix: "lib",
        library_extension: "dylib",
        ofx_architecture: "MacOS",
    }
}

/// The Apple silicon macOS target.
pub fn macos_aarch64() -> (t: Target)
    ensures
        t == spec_macos_aarch64(),
{
    Target {
        target_triple: "aarch64-apple-darwin",
        library_prefix: "lib",
        library_extension: "dylib",
        ofx_architecture: "MacOS",
    }
}

/// The known target whose triple is `triple`.
pub open spec fn spec_target_from_triple(triple: Seq<char>) -> Option<Target> {
    if triple == "x86_64-unknown-linux-gnu"@ {
        Some(
            Target {
                target_triple: "x86_64-unknown-linux-gnu",
                library_prefix: "lib",
                library_extension: "so",
                ofx_architecture: "Linux-x86-64",
            },
        )
    } else if triple == "i686-unknown-linux-gnu"@ {
        Some(
            Target {
                target_triple: "i686-unknown-linux-gnu",
                library_prefix: "lib",
                library_extension: "so",
                ofx_architecture: "Linux-x86",
            },
        )
    } else if triple == "x86_64-pc-windows-msvc"@ {
        Some(
            Target {
                target_triple: "x86_64-pc-windows-msvc",
                library_prefix: "",
                library_extension: "dll",
                ofx_architecture: "Win64",
            },
        )
    } else if triple == "i686-pc-windows-msvc"@ {
        Some(
            Target {
                target_triple: "i686-pc-windows-msvc",
                library_prefix: "",
                library_extension: "dll",
                ofx_architecture: "Win32",
            },
        )
    } else if triple == "x86_64-apple-darwin"@ {
        Some(spec_macos_x86_64())
    } else if triple == "aarch64-apple-darwin"@ {
        Some(spec_macos_aarch64())
    } else {
        None
    }
}

impl Target {
    /// The known target whose triple is `triple`.
    pub fn from_triple(triple: &str) -> (r: Option<Target>)
        ensures
            r == spec_target_from_triple(triple@),
    {
        if str_eq(triple, "x86_64-unknown-linux-gnu") {
            Some(
                Target {
                    target_triple: "x86_64-unknown-linux-gnu",
                    library_prefix: "lib",
                    library_extension: "so",
                    ofx_architecture: "Linux-x86-64",
                },
            )
        } else if str_eq(triple, "i686-unknown-linux-gnu") {
            Some(
                Target {
                    target_triple: "i686-unknown-linux-gnu",
                    library_prefix: "lib",
                    library_extension: "so",
                    ofx_architecture: "Linux-x86",
                },
            )
        } else if str_eq(triple, "x86_64-pc-windows-msvc") {
            Some(
                Target {
                    target_triple: "x86_64-pc-windows-msvc",
                    library_prefix: "",
                    library_extension: "dll",
                    ofx_architecture: "Win64",
                },
            )
        } else if str_eq(triple, "i686-pc-windows-msvc") {
            Some(
                Target {
                    target_triple: "i686-pc-windows-msvc",
                    library_prefix: "",
                    library_extension: "dll",
                    ofx_architecture: "Win32",
                },
            )
        } else if str_eq(triple, "x86_64-apple-darwin") {
            Some(macos_x86_64())
        } else if str_eq(triple, "aarch64-apple-darwin") {
            Some(macos_aarch64())
        } else {
            None
        }
    }
}

/// The targets one build produces a bundle for.
#[derive(Clone, Copy, Debug)]
pub enum Targets {
    /// One universal macOS library made of the Intel and Apple silicon builds.
    MacOSUniversal,
    Single(Target),
}

/// How the bundler was asked to build.
pub struct BuildOptions {
    pub release_mode: bool,
    pub macos_universal: bool,
    pub targets: Targets,
    pub output_dir: std::path::PathBuf,
}

impl BuildOptions {
    /// The options from the command line's values: a universal macOS build
    /// ignores the target triple; otherwise the triple must name a known
    /// target.
    pub fn from_parts(
        release_mode: bool,
        macos_universal: bool,
        target_triple: &str,
        output_dir: std::path::PathBuf,
    ) -> (r: Option<BuildOptions>)
        ensures
            macos_universal ==> (r matches Some(o) && o.targets is MacOSUniversal && o.release_mode
                == release_mode && o.macos_universal && o.output_dir == output_dir),
            !macos_universal ==> match spec_target_from_triple(target_triple@) {
                Some(t) => (r matches Some(o) && o.targets == Targets::Single(t) && o.release_mode
                    == release_mode && !o.macos_universal && o.output_dir == output_dir),
                None => r is None,
            },
    {
        let targets = if macos_universal {
            Targets::MacOSUniversal
        } else {
            match Target::from_triple(target_triple) {
                Some(t) => Targets::Single(t),
                None => return None,
            }
        };
        Some(BuildOptions { release_mode, macos_universal, targets, output_dir })
    }
}

/// The targets a build compiles, in order.
pub open spec fn spec_build_targets(targets: Targets) -> Seq<Target> {
    match targets {
        Targets::MacOSUniversal => seq![spec_macos_x86_64(), spec_macos_aarch64()],
        Targets::Single(t) => seq![t],
    }
}

pub fn build_targets(targets: Targets) -> (r: Vec<Target>)
    ensures
        r@ == spec_build_targets(targets),
{
    let mut v: Vec<Target> = Vec::new();
    match targets {
        Targets::MacOSUniversal => {
            v.push(macos_x86_64());
            v.push(macos_aarch64());
        },
        Targets::Single(t) => {
            v.push(t);
        },
    }
    assert(v@ =~= spec_build_targets(targets));
    v
}

/// The OpenFX architecture directory of a build's bundle: a universal macOS
/// library goes where both of its halves would.
pub fn bundle_architecture(targets: Targets) -> (r: &'static str)
    ensures
        r == match targets {
            Targets::MacOSUniversal => spec_macos_x86_64().ofx_architecture,
            Targets::Single(t) => t.ofx_architecture,
        },
        targets is MacOSUniversal ==> r == spec_macos_aarch64().ofx_architecture,
{
    match targets {
        Targets::MacOSUniversal => macos_x86_64().ofx_architecture,
        Targets::Single(t) => t.ofx_architecture,
    }
}

/// The arguments cargo builds one plugin library with.
pub open spec fn spec_cargo_build_args(package_name: Seq<char>, target: Target, release_mode: bool) -> Seq<
    Seq<char>,
> {
    let base = seq![
        "build"@,
        "--package="@ + package_name,
        "--lib"@,
        "--target"@,
        target.target_triple@,
    ];
    if release_mode {
        base.push("--release"@)
    } else {
        base
    }
}

/// The views of a list of strings.
pub open spec fn views(v: Seq<String>) -> Seq<Seq<char>> {
    v.map_values(|s: String| s@)
}

pub fn cargo_build_args(package_name: &str, target: &Target, release_mode: bool) -> (r: Vec<String>)
    ensures
        views(r@) == spec_cargo_build_args(package_name@, *target, release_mode),
{
    let mut v: Vec<String> = Vec::new();
    v.push(String::from_str("build"));
    let mut package = String::from_str("--package=");
    package.append(package_name);
    v.push(package);
    v.push(String::from_str("--lib"));
    v.push(String::from_str("--target"));
    v.push(String::from_str(target.target_triple));
    if release_mode {
        v.push(String::from_str("--release"));
    }
    assert(views(v@) =~= spec_cargo_build_args(package_name@, *target, release_mode));
    v
}

/// The directory under the target's build directory that a build's
/// artefacts go in.
pub fn profile_dir(release_mode: bool) -> (r: &'static str)
    ensures
        r@ == (if release_mode { "release"@ } else { "debug"@ }),
{
    if release_mode {
        "release"
    } else {
        "debug"
    }
}

/// The path of a built library below the workspace directory, as its
/// components; the last one is the file name before its extension is set.
pub open spec fn spec_built_library_path(
    target: Target,
    library_name: Seq<char>,
    release_mode: bool,
) -> Seq<Seq<char>> {
    seq![
        "target"@,
        target.target_triple@,
        if release_mode { "release"@ } else { "debug"@ },
        target.library_prefix@ + library_name,
    ]
}

pub fn built_library_path(target: &Target, library_name: &str, release_mode: bool) -> (r: Vec<
    String,
>)
    ensures
        views(r@) == spec_built_library_path(*target, library_name@, release_mode),
{
    let mut v: Vec<String> = Vec::new();
    v.push(String::from_str("target"));
    v.push(String::from_str(target.target_triple));
    v.push(String::from_str(profile_dir(release_mode)));
    let mut file = String::from_str(target.library_prefix);
    file.append(library_name);
    v.push(file);
    assert(views(v@) =~= spec_built_library_path(*target, library_name@, release_mode));
    v
}

/// Where the parts of an OpenFX bundle go, each as path components below the
/// output directory.
pub struct BundleLayout {
    pub contents_dir: Vec<String>,
    pub binary: Vec<String>,
    pub resources_dir: Vec<String>,
    /// Where `Info.plist` goes; only macOS bundles have one.
    pub info_plist: Option<Vec<String>>,
    /// The icon file of the assets directory that the bundle uses.
    pub icon_source: &'static str,
    pub icon: Vec<String>,
}

pub open spec fn spec_contents_dir(bundle_name: Seq<char>) -> Seq<Seq<char>> {
    seq![bundle_name + ".ofx.bundle"@, "Contents"@]
}

/// The layout of bundle `bundle_name` for architecture directory
/// `ofx_architecture`: the binary under `Contents/<architecture>`, the icon
/// under `Contents/Resources`, and on macOS an `Info.plist` and the macOS
/// icon.
pub open spec fn spec_bundle_layout_ok(
    layout: BundleLayout,
    bundle_name: Seq<char>,
    ofx_architecture: Seq<char>,
    icon_file_name: Seq<char>,
) -> bool {
    let contents = spec_contents_dir(bundle_name);
    let resources = contents.push("Resources"@);
    let mac = ofx_architecture == "MacOS"@;
    &&& views(layout.contents_dir@) == contents
    &&& views(layout.binary@) == contents + seq![ofx_architecture, bundle_name + ".ofx"@]
    &&& views(layout.resources_dir@) == resources
    &&& mac ==> (layout.info_plist matches Some(p) && views(p@) == contents.push("Info.plist"@))
    &&& !mac ==> layout.info_plist is None
    &&& layout.icon_source@ == (if mac { "macos_icon.png"@ } else { "icon.png"@ })
    &&& views(layout.icon@) == resources.push(icon_file_name + ".png"@)
}

fn contents_dir(bundle_name: &str) -> (r: Vec<String>)
    ensures
        views(r@) == spec_contents_dir(bundle_name@),
{
    let mut v: Vec<String> = Vec::new();
    let mut b = String::from_str(bundle_name);
    b.append(".ofx.bundle");
    v.push(b);
    v.push(String::from_str("Contents"));
    assert(views(v@) =~= spec_contents_dir(bundle_name@));
    v
}

pub fn bundle_layout(bundle_name: &str, ofx_architecture: &str, icon_file_name: &str) -> (r:
    BundleLayout)
    ensures
        spec_bundle_layout_ok(r, bundle_name@, ofx_architecture@, icon_file_name@),
{
    let contents = contents_dir(bundle_name);
    let mut binary = contents_dir(bundle_name);
    binary.push(String::from_str(ofx_architecture));
    let mut bin_file = String::from_str(bundle_name);
    bin_file.append(".ofx");
    binary.push(bin_file);
    let mut resources = contents_dir(bundle_name);
    resources.push(String::from_str("Resources"));
    let mut icon = contents_dir(bundle_name);
    icon.push(String::from_str("Resources"));
    let mut icon_file = String::from_str(icon_file_name);
    icon_file.append(".png");
    icon.push(icon_file);
    let mac = str_eq(ofx_architecture, "MacOS");
    let info_plist = if mac {
        let mut p = contents_dir(bundle_name);
        p.push(String::from_str("Info.plist"));
        assert(views(p@) =~= spec_contents_dir(bundle_name@).push("Info.plist"@));
        Some(p)
    } else {
        None
    };
    let icon_source = if mac {
        "macos_icon.png"
    } else {
        "icon.png"
    };
    let r = BundleLayout {
        contents_dir: contents,
        binary,
        resources_dir: resources,
        info_plist,
        icon_source,
        icon,
    };
    assert(views(r.binary@) =~= spec_contents_dir(bundle_name@) + seq![
        ofx_architecture@,
        bundle_name@ + ".ofx"@,
    ]);
    assert(views(r.resources_dir@) =~= spec_contents_dir(bundle_name@).push("Resources"@));
    assert(views(r.icon@) =~= spec_contents_dir(bundle_name@).push("Resources"@).push(
        icon_file_name@ + ".png"@,
    ));
    r
}

/// The entries of a plist dictionary, in the dictionary's order: each key
/// with its value's text when the value is a string, `None` otherwise.
pub uninterp spec fn dictionary_entries(d: plist::Dictionary) -> Seq<(Seq<char>, Option<Seq<char>>)>;

/// The entries of a plist value that is a dictionary, as
/// `dictionary_entries` gives them; `None` for any other value.
pub uninterp spec fn value_dictionary_entries(v: plist::Value) -> Option<Seq<(Seq<char>, Option<Seq<char>>)>>;

/// Entries after inserting `key` with `value`: a key already present keeps
/// its place and takes the new value; a new key goes last.
pub open spec fn entries_insert(
    entries: Seq<(Seq<char>, Option<Seq<char>>)>,
    key: Seq<char>,
    value: Seq<char>,
) -> Seq<(Seq<char>, Option<Seq<char>>)> {
    if exists|i: int| 0 <= i < entries.len() && #[trigger] entries[i].0 == key {
        entries.update(choose|i: int| 0 <= i < entries.len() && #[trigger] entries[i].0 == key, (key, Some(value)))
    } else {
        entries.push((key, Some(value)))
    }
}

/// `plist::Dictionary::new`: an empty dictionary.
#[verifier::external_body]
fn dictionary_new() -> (d: plist::Dictionary)
    ensures
        dictionary_entries(d) == Seq::<(Seq<char>, Option<Seq<char>>)>::empty(),
{
    plist::Dictionary::new()
}

/// `plist::Dictionary::insert` with a string value: the key keeps its place
/// when present and is appended otherwise (the dictionary is an `IndexMap`).
#[verifier::external_body]
fn dictionary_insert_string(d: &mut plist::Dictionary, key: String, value: String)
    ensures
        dictionary_entries(*final(d)) == entries_insert(
            dictionary_entries(*old(d)),
            key@,
            value@,
        ),
{
    d.insert(key, plist::Value::from(value));
}

/// `plist::Value::Dictionary`: a value holding the dictionary.
#[verifier::external_body]
fn value_from_dictionary(d: plist::Dictionary) -> (v: plist::Value)
    ensures
        value_dictionary_entries(v) == Some(dictionary_entries(d)),
{
    plist::Value::Dictionary(d)
}

/// What a bundle's `Info.plist` says of it besides its version.
pub struct Info<'a> {
    pub bundle_identifier: &'a str,
    pub human_readable_copyright: &'a str,
}

/// The entries of the `Info.plist` of a macOS bundle, in order.
pub open spec fn spec_info_plist_entries(info: Info, version: Seq<char>) -> Seq<(Seq<char>, Option<Seq<char>>)> {
    seq![
        ("CFBundleInfoDictionaryVersion"@, Some("6.0"@)),
        ("CFBundleDevelopmentRegion"@, Some("en"@)),
        ("CFBundlePackageType"@, Some("BNDL"@)),
        ("CFBundleIdentifier"@, Some(info.bundle_identifier@)),
        ("CFBundleVersion"@, Some(version)),
        ("CFBundleShortVersionString"@, Some(version)),
        ("NSHumanReadableCopyright"@, Some(info.human_readable_copyright@)),
        ("CFBundleSignature"@, Some("????"@)),
    ]
}

/// The contents of the `Info.plist` of a macOS bundle of the given version.
pub fn build_info_plist(info: &Info, version: &str) -> (r: plist::Value)
    ensures
        value_dictionary_entries(r) == Some(spec_info_plist_entries(*info, version@)),
{
    proof {
        reveal_strlit("CFBundleInfoDictionaryVersion");
        assert("CFBundleInfoDictionaryVersion"@.len() == 29);
        reveal_strlit("CFBundleDevelopmentRegion");
        assert("CFBundleDevelopmentRegion"@.len() == 25);
        reveal_strlit("CFBundlePackageType");
        assert("CFBundlePackageType"@.len() == 19);
        reveal_strlit("CFBundleIdentifier");
        assert("CFBundleIdentifier"@.len() == 18);
        reveal_strlit("CFBundleVersion");
        assert("CFBundleVersion"@.len() == 15);
        reveal_strlit("CFBundleShortVersionString");
        assert("CFBundleShortVersionString"@.len() == 26);
        reveal_strlit("NSHumanReadableCopyright");
        assert("NSHumanReadableCopyright"@.len() == 24);
        reveal_strlit("CFBundleSignature");
        assert("CFBundleSignature"@.len() == 17);
    }
    let mut d = dictionary_new();
    dictionary_insert_string(&mut d, String::from_str("CFBundleInfoDictionaryVersion"), String::from_str("6.0"));
    dictionary_insert_string(&mut d, String::from_str("CFBundleDevelopmentRegion"), String::from_str("en"));
    dictionary_insert_string(&mut d, String::from_str("CFBundlePackageType"), String::from_str("BNDL"));
    dictionary_insert_string(&mut d, String::from_str("CFBundleIdentifier"), String::from_str(info.bundle_identifier));
    dictionary_insert_string(&mut d, String::from_str("CFBundleVersion"), String::from_str(version));
    dictionary_insert_string(&mut d, String::from_str("CFBundleShortVersionString"), String::from_str(version));
    dictionary_insert_string(&mut d, String::from_str("NSHumanReadableCopyright"), String::from_str(info.human_readable_copyright));
    dictionary_insert_string(&mut d, String::from_str("CFBundleSignature"), String::from_str("????"));
    assert(dictionary_entries(d) =~= spec_info_plist_entries(*info, version@));
    value_from_dictionary(d)
}

/// A single-target build compiles exactly the requested target, and a
/// universal build compiles the Intel and the Apple-silicon macOS targets,
/// in that order, whose binaries share the "MacOS" bundle directory.
pub proof fn lemma_build_targets(t: Target)
    ensures
        spec_build_targets(Targets::Single(t)).len() == 1,
        spec_build_targets(Targets::Single(t))[0] == t,
        spec_build_targets(Targets::MacOSUniversal).len() == 2,
        spec_build_targets(Targets::MacOSUniversal)[0].target_triple@ == "x86_64-apple-darwin"@,
        spec_build_targets(Targets::MacOSUniversal)[1].target_triple@ == "aarch64-apple-darwin"@,
        spec_build_targets(Targets::MacOSUniversal)[0].ofx_architecture@ == "MacOS"@,
        spec_build_targets(Targets::MacOSUniversal)[1].ofx_architecture@ == "MacOS"@,
{
}

/// A triple is built as itself: the target looked up for a triple has that
/// triple, so a build for one platform never compiles for another; and
/// each of the six known triples is found.
pub proof fn lemma_target_from_triple(triple: Seq<char>)
    ensures
        spec_target_from_triple(triple) matches Some(t) ==> t.target_triple@ == triple,
        spec_target_from_triple("x86_64-unknown-linux-gnu"@) is Some,
        spec_target_from_triple("i686-unknown-linux-gnu"@) is Some,
        spec_target_from_triple("x86_64-pc-windows-msvc"@) is Some,
        spec_target_from_triple("i686-pc-windows-msvc"@) is Some,
        spec_target_from_triple("x86_64-apple-darwin"@) is Some,
        spec_target_from_triple("aarch64-apple-darwin"@) is Some,
{
}

} // verus!
