//! The bundle builder's decisions: the directory layout everything is built
//! in, the cargo invocations that build the two embedded projects and the
//! launcher, the icon set that is rasterized, and the paths and manifest
//! fields of the application bundle. Running cargo, copying files and
//! rendering the icons happen outside; every path and argument they use is
//! computed here.

use vstd::prelude::*;
use vstd::string::StrSliceExecFns;
use vstd::string::StringExecFns;
use crate::paths::{join_spec, path_join};
use crate::launcher::string_views;

verus! {

/// The directory layout of one build: where the two embedded projects
/// stand, where their build products land, and where the bundle is put
/// together.
pub struct Environment {
    pub app_name: String,
    pub wezterm_root: String,
    pub helix_root: String,
    pub wezterm_release_dir: String,
    pub helix_release_dir: String,
    pub app_dir: String,
    pub app_contents_dir: String,
    pub app_binary_dir: String,
    pub app_extras_dir: String,
    pub app_icon: String,
}

impl Environment {
    /// How every path of the layout stands relative to the manifest
    /// directory, for the chosen profile.
    pub open spec fn derived_from(self, manifest_dir: Seq<char>, release: bool) -> bool {
        let target = join_spec(manifest_dir, "target"@);
        &&& self.app_name@ == "Wezlix.app"@
        &&& self.wezterm_root@ == join_spec(manifest_dir, "wezterm"@)
        &&& self.helix_root@ == join_spec(manifest_dir, "helix"@)
        &&& self.wezterm_release_dir@ == join_spec(
            target,
            if release {
                "release"@
            } else {
                "debug"@
            },
        )
        &&& self.helix_release_dir@ == join_spec(
            target,
            if release {
                "opt"@
            } else {
                "debug"@
            },
        )
        &&& self.app_dir@ == join_spec(target, "app"@)
        &&& self.app_contents_dir@ == join_spec(
            join_spec(self.app_dir@, "Wezlix.app"@),
            "Contents"@,
        )
        &&& self.app_binary_dir@ == join_spec(self.app_contents_dir@, "MacOS"@)
        &&& self.app_extras_dir@ == join_spec(self.app_contents_dir@, "Resources"@)
        &&& self.app_icon@ == join_spec(join_spec(manifest_dir, "resources"@), "wezlix.svg"@)
    }

    /// The layout rooted at the manifest directory: the embedded projects in
    /// `wezterm` and `helix`, build products under `target`, and the bundle
    /// `Wezlix.app` under `target/app`.
    pub fn new(manifest_dir: &str, release: bool) -> (e: Environment)
        ensures
            e.derived_from(manifest_dir@, release),
    {
        let target = path_join(manifest_dir, "target");
        let app_dir = path_join(target.as_str(), "app");
        let app_contents_dir = path_join(path_join(app_dir.as_str(), "Wezlix.app").as_str(),
            "Contents");
        Environment {
            app_name: "Wezlix.app".to_owned(),
            wezterm_root: path_join(manifest_dir, "wezterm"),
            helix_root: path_join(manifest_dir, "helix"),
            wezterm_release_dir: path_join(target.as_str(), if release {
                "release"
            } else {
                "debug"
            }),
            helix_release_dir: path_join(target.as_str(), if release {
                "opt"
            } else {
                "debug"
            }),
            app_icon: path_join(path_join(manifest_dir, "resources").as_str(), "wezlix.svg"),
            app_binary_dir: path_join(app_contents_dir.as_str(), "MacOS"),
            app_extras_dir: path_join(app_contents_dir.as_str(), "Resources"),
            app_contents_dir,
            app_dir,
        }
    }
}

/// The builder's options, and the layout they lead to.
pub struct WezlixBuilder {
    pub release: bool,
    pub clean: bool,
    pub cargo: String,
    pub env: Environment,
}

impl WezlixBuilder {
    /// A builder from its parsed options and the manifest directory.
    pub fn new(release: bool, clean: bool, cargo: String, manifest_dir: &str) -> (b: WezlixBuilder)
        ensures
            b.release == release,
            b.clean == clean,
            b.cargo == cargo,
            b.env.derived_from(manifest_dir@, release),
    {
        WezlixBuilder { release, clean, cargo, env: Environment::new(manifest_dir, release) }
    }

    /// The profile the terminal emulator is built with: `release` in
    /// release mode, the default profile otherwise.
    pub fn wezterm_profile(&self) -> (p: Option<&'static str>)
        ensures
            match p {
                Some(s) => self.release && s@ == "release"@,
                None => !self.release,
            },
    {
        if self.release {
            Some("release")
        } else {
            None
        }
    }

    /// The profile the editor is built with: `opt` in release mode, the
    /// default profile otherwise.
    pub fn helix_profile(&self) -> (p: Option<&'static str>)
        ensures
            match p {
                Some(s) => self.release && s@ == "opt"@,
                None => !self.release,
            },
    {
        if self.release {
            Some("opt")
        } else {
            None
        }
    }

    /// The target directory the terminal emulator's build expects to exist
    /// before it runs.
    pub fn wezterm_target_workaround_dir(&self) -> (r: String)
        ensures
            r@ == join_spec(join_spec(self.env.wezterm_root@, "target"@), "release"@),
    {
        path_join(path_join(self.env.wezterm_root.as_str(), "target").as_str(), "release")
    }

    /// The bundle directory the package clean removes.
    pub fn package_root(&self) -> (r: String)
        ensures
            r@ == join_spec(self.env.app_dir@, self.env.app_name@),
    {
        path_join(self.env.app_dir.as_str(), self.env.app_name.as_str())
    }

    /// The directories created before anything is copied into the bundle.
    pub fn package_directories(&self) -> (v: Vec<String>)
        ensures
            v@.len() == 4,
            v@[0]@ == self.env.app_binary_dir@,
            v@[1]@ == self.env.app_extras_dir@,
            v@[2]@ == join_spec(join_spec(self.env.app_binary_dir@, "runtime"@), "queries"@),
            v@[3]@ == join_spec(join_spec(self.env.app_binary_dir@, "runtime"@), "themes"@),
    {
        let runtime = path_join(self.env.app_binary_dir.as_str(), "runtime");
        let mut v: Vec<String> = Vec::new();
        v.push(self.env.app_binary_dir.clone());
        v.push(self.env.app_extras_dir.clone());
        v.push(path_join(runtime.as_str(), "queries"));
        v.push(path_join(runtime.as_str(), "themes"));
        v
    }

    /// The executables copied into the bundle's binary directory.
    pub fn binaries_to_copy(&self) -> (v: Vec<String>)
        ensures
            v@.len() == 6,
            v@[0]@ == join_spec(self.env.helix_release_dir@, "hx"@),
            v@[1]@ == join_spec(self.env.wezterm_release_dir@, "wezlix"@),
            v@[2]@ == join_spec(self.env.wezterm_release_dir@, "wezterm"@),
            v@[3]@ == join_spec(self.env.wezterm_release_dir@, "wezterm-mux-server"@),
            v@[4]@ == join_spec(self.env.wezterm_release_dir@, "wezterm-gui"@),
            v@[5]@ == join_spec(self.env.wezterm_release_dir@, "strip-ansi-escapes"@),
    {
        let mut v: Vec<String> = Vec::new();
        v.push(path_join(self.env.helix_release_dir.as_str(), "hx"));
        v.push(path_join(self.env.wezterm_release_dir.as_str(), "wezlix"));
        v.push(path_join(self.env.wezterm_release_dir.as_str(), "wezterm"));
        v.push(path_join(self.env.wezterm_release_dir.as_str(), "wezterm-mux-server"));
        v.push(path_join(self.env.wezterm_release_dir.as_str(), "wezterm-gui"));
        v.push(path_join(self.env.wezterm_release_dir.as_str(), "strip-ansi-escapes"));
        v
    }

    /// The graphics libraries copied from the terminal emulator's bundled
    /// assets into the bundle root.
    pub fn dylibs_to_copy(&self) -> (v: Vec<String>)
        ensures
            v@.len() == 3,
            v@[0]@ == join_spec(self.spec_dylib_dir(), "libEGL.dylib"@),
            v@[1]@ == join_spec(self.spec_dylib_dir(), "libGLESv1_CM.dylib"@),
            v@[2]@ == join_spec(self.spec_dylib_dir(), "libGLESv2.dylib"@),
    {
        let assets = path_join(path_join(path_join(self.env.wezterm_root.as_str(),
            "assets").as_str(), "macos").as_str(), "WezTerm.app");
        let mut v: Vec<String> = Vec::new();
        v.push(path_join(assets.as_str(), "libEGL.dylib"));
        v.push(path_join(assets.as_str(), "libGLESv1_CM.dylib"));
        v.push(path_join(assets.as_str(), "libGLESv2.dylib"));
        v
    }

    /// The directory the graphics libraries are copied from.
    pub open spec fn spec_dylib_dir(self) -> Seq<char> {
        join_spec(join_spec(join_spec(self.env.wezterm_root@, "assets"@), "macos"@), "WezTerm.app"@)
    }

    /// The editor runtime directories copied into the bundle.
    pub fn runtime_items_to_copy(&self) -> (v: Vec<String>)
        ensures
            v@.len() == 3,
            v@[0]@ == join_spec(join_spec(self.env.helix_root@, "runtime"@), "queries"@),
            v@[1]@ == join_spec(join_spec(self.env.helix_root@, "runtime"@), "themes"@),
            v@[2]@ == join_spec(join_spec(self.env.helix_root@, "runtime"@), "tutor"@),
    {
        let runtime = path_join(self.env.helix_root.as_str(), "runtime");
        let mut v: Vec<String> = Vec::new();
        v.push(path_join(runtime.as_str(), "queries"));
        v.push(path_join(runtime.as_str(), "themes"));
        v.push(path_join(runtime.as_str(), "tutor"));
        v
    }

    /// Where the runtime directories are copied to.
    pub fn runtime_destination(&self) -> (r: String)
        ensures
            r@ == join_spec(self.env.app_binary_dir@, "runtime"@),
    {
        path_join(self.env.app_binary_dir.as_str(), "runtime")
    }

    /// Where the bundle manifest is written.
    pub fn info_plist_path(&self) -> (r: String)
        ensures
            r@ == join_spec(self.env.app_contents_dir@, "Info.plist"@),
    {
        path_join(self.env.app_contents_dir.as_str(), "Info.plist")
    }

    /// Where the converted icon file lands in the bundle.
    pub fn bundle_icon_path(&self) -> (r: String)
        ensures
            r@ == join_spec(self.env.app_extras_dir@, "wezlix.icns"@),
    {
        path_join(self.env.app_extras_dir.as_str(), "wezlix.icns")
    }
}

/// The `cargo` argument list that builds an embedded project with the given
/// profile, or with the default one.
pub fn dependency_build_args(profile: Option<&str>) -> (a: Vec<String>)
    ensures
        profile matches Some(p) ==> string_views(a@) == seq!["build"@, "--profile"@, p@],
        profile is None ==> string_views(a@) == seq!["build"@],
{
    let mut a: Vec<String> = Vec::new();
    a.push("build".to_owned());
    match profile {
        Some(p) => {
            a.push("--profile".to_owned());
            a.push(p.to_owned());
            proof {
                assert(string_views(a@) =~= seq!["build"@, "--profile"@, p@]);
            }
        },
        None => {
            proof {
                assert(string_views(a@) =~= seq!["build"@]);
            }
        },
    }
    a
}

/// The `cargo` argument list that cleans an embedded project.
pub fn dependency_clean_args() -> (a: Vec<String>)
    ensures
        string_views(a@) == seq!["clean"@],
{
    let mut a: Vec<String> = Vec::new();
    a.push("clean".to_owned());
    proof {
        assert(string_views(a@) =~= seq!["clean"@]);
    }
    a
}

/// The target directory every embedded `cargo` run is pointed at, relative
/// to the project it runs in.
pub fn dependency_target_dir() -> (r: &'static str)
    ensures
        r@ == "../target"@,
{
    "../target"
}

/// The `cargo` argument list that builds the launcher itself.
pub fn launcher_build_args() -> (a: Vec<String>)
    ensures
        string_views(a@) == seq!["build"@, "--bin"@, "wezlix"@, "--release"@],
{
    let mut a: Vec<String> = Vec::new();
    a.push("build".to_owned());
    a.push("--bin".to_owned());
    a.push("wezlix".to_owned());
    a.push("--release".to_owned());
    proof {
        assert(string_views(a@) =~= seq!["build"@, "--bin"@, "wezlix"@, "--release"@]);
    }
    a
}

/// The directory the icon set is rendered into.
pub fn iconset_dir(manifest_dir: &str) -> (r: String)
    ensures
        r@ == join_spec(join_spec(manifest_dir@, "resources"@), "wezlix.iconset"@),
{
    path_join(path_join(manifest_dir, "resources").as_str(), "wezlix.iconset")
}

/// The icon set: each edge length in pixels with the name of the icon it
/// fills.
pub fn icon_sizes() -> (v: Vec<(u32, String)>)
    ensures
        v@.len() == 10,
        v@[0].0 == 16 && v@[0].1@ == "16x16"@,
        v@[1].0 == 32 && v@[1].1@ == "16x16@2x"@,
        v@[2].0 == 32 && v@[2].1@ == "32x32"@,
        v@[3].0 == 64 && v@[3].1@ == "32x32@2x"@,
        v@[4].0 == 128 && v@[4].1@ == "128x128"@,
        v@[5].0 == 256 && v@[5].1@ == "128x128@2x"@,
        v@[6].0 == 256 && v@[6].1@ == "256x256"@,
        v@[7].0 == 512 && v@[7].1@ == "256x256@2x"@,
        v@[8].0 == 512 && v@[8].1@ == "512x512"@,
        v@[9].0 == 1024 && v@[9].1@ == "512x512@2x"@,
{
    let mut v: Vec<(u32, String)> = Vec::new();
    v.push((16, "16x16".to_owned()));
    v.push((32, "16x16@2x".to_owned()));
    v.push((32, "32x32".to_owned()));
    v.push((64, "32x32@2x".to_owned()));
    v.push((128, "128x128".to_owned()));
    v.push((256, "128x128@2x".to_owned()));
    v.push((256, "256x256".to_owned()));
    v.push((512, "256x256@2x".to_owned()));
    v.push((512, "512x512".to_owned()));
    v.push((1024, "512x512@2x".to_owned()));
    v
}

/// The file name one rasterized icon is saved under.
pub fn icon_file_name(name: &str) -> (r: String)
    ensures
        r@ == "icon_"@ + name@ + ".png"@,
{
    let mut r = "icon_".to_owned();
    r.append(name);
    r.append(".png");
    proof {
        assert(r@ =~= "icon_"@ + name@ + ".png"@);
    }
    r
}

/// The bundle manifest fields the builder writes.
pub struct BundleMetadata {
    pub development_region: String,
    pub executable: String,
    pub identifier: String,
    pub bundle_version: String,
    pub info_dictionary_version: String,
    pub short_version: String,
    pub name: String,
    pub display_name: String,
    pub icon_file: String,
    pub package_type: String,
    pub high_resolution_capable: bool,
    pub supports_automatic_graphics_switching: bool,
}

/// The manifest the bundle is given, with the package version as its short
/// version string.
pub fn bundle_metadata(package_version: &str) -> (m: BundleMetadata)
    ensures
        m.development_region@ == "en"@,
        m.executable@ == "wezlix"@,
        m.identifier@ == "io.warpnine.wezlix"@,
        m.bundle_version@ == "1"@,
        m.info_dictionary_version@ == "1.0"@,
        m.short_version@ == package_version@,
        m.name@ == "Wezlix"@,
        m.display_name@ == "Wezlix"@,
        m.icon_file@ == "wezlix.icns"@,
        m.package_type@ == "APPL"@,
        m.high_resolution_capable,
        m.supports_automatic_graphics_switching,
{
    BundleMetadata {
        development_region: "en".to_owned(),
        executable: "wezlix".to_owned(),
        identifier: "io.warpnine.wezlix".to_owned(),
        bundle_version: "1".to_owned(),
        info_dictionary_version: "1.0".to_owned(),
        short_version: package_version.to_owned(),
        name: "Wezlix".to_owned(),
        display_name: "Wezlix".to_owned(),
        icon_file: "wezlix.icns".to_owned(),
        package_type: "APPL".to_owned(),
        high_resolution_capable: true,
        supports_automatic_graphics_switching: true,
    }
}

} // verus!
