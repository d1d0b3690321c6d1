use tor_browser_builder::palette::{Theme, DARK_BG, DARK_BORDER, DARK_SURFACE, LIGHT_BG, PURPLE};
use tor_browser_builder::platform::{
    archive_extension, default_install_path, find_existing_install, join_path, parent_folder,
    platform_label, release_json_filename, Arch, InstallScope, Os, Probe, Target,
};
use tor_browser_builder::release::{app_version, release_url, user_agent};

fn on(os: Os, arch: Arch) -> Target {
    Target { os, arch }
}

#[test]
fn labels() {
    assert_eq!(platform_label(on(Os::MacOs, Arch::X86_64)), "macOS");
    assert_eq!(platform_label(on(Os::Windows, Arch::X86_64)), "Windows");
    assert_eq!(platform_label(on(Os::Linux, Arch::Other)), "Linux");
    assert_eq!(platform_label(on(Os::Other, Arch::Other)), "this platform");
}

#[test]
fn release_files() {
    assert_eq!(release_json_filename(on(Os::MacOs, Arch::Other)), "download-macos.json");
    assert_eq!(
        release_json_filename(on(Os::Windows, Arch::X86_64)),
        "download-windows-x86_64.json"
    );
    assert_eq!(
        release_json_filename(on(Os::Windows, Arch::Other)),
        "download-windows-i686.json"
    );
    assert_eq!(
        release_json_filename(on(Os::Linux, Arch::X86_64)),
        "download-linux-x86_64.json"
    );
    assert_eq!(release_json_filename(on(Os::Linux, Arch::Other)), "download-linux-i686.json");
    assert_eq!(release_json_filename(on(Os::Other, Arch::X86_64)), "download-linux-i686.json");
    assert_eq!(
        release_url(on(Os::MacOs, Arch::Other)),
        "https://aus1.torproject.org/torbrowser/update_3/release/download-macos.json"
    );
}

#[test]
fn archive_extensions() {
    assert_eq!(archive_extension(on(Os::MacOs, Arch::X86_64)), "dmg");
    assert_eq!(archive_extension(on(Os::Windows, Arch::X86_64)), "exe");
    assert_eq!(archive_extension(on(Os::Linux, Arch::X86_64)), "tar.xz");
    assert_eq!(archive_extension(on(Os::Other, Arch::X86_64)), "tar.xz");
}

#[test]
fn version_and_agent() {
    assert_eq!(app_version(), "0.07");
    assert_eq!(user_agent(), "tor-browser-builder/0.07");
}

#[test]
fn joined_paths() {
    assert_eq!(join_path(Os::Linux, "/opt", "x"), "/opt/x");
    assert_eq!(join_path(Os::Linux, "/opt/", "x"), "/opt/x");
    assert_eq!(join_path(Os::Linux, "", "x"), "x");
    assert_eq!(join_path(Os::Windows, "C:\\Users", "x"), "C:\\Users\\x");
    assert_eq!(join_path(Os::Windows, "C:\\", "x"), "C:\\x");
    assert_eq!(join_path(Os::Windows, "C:", "x"), "C:x");
    assert_eq!(join_path(Os::MacOs, "C:", "x"), "C:/x");
}

#[test]
fn default_locations() {
    assert_eq!(default_install_path(Os::MacOs, Some("/Users/a"), None), "/Applications");
    assert_eq!(default_install_path(Os::MacOs, None, None), "/Applications");
    assert_eq!(
        default_install_path(Os::Linux, Some("/home/a"), None),
        "/home/a/.local/share/tor-browser"
    );
    assert_eq!(default_install_path(Os::Linux, None, None), "/opt/tor-browser");
    assert_eq!(
        default_install_path(Os::Windows, Some("C:\\Users\\a"), Some("D:\\Local")),
        "D:\\Local\\Tor Browser"
    );
    assert_eq!(
        default_install_path(Os::Windows, Some("C:\\Users\\a"), None),
        "C:\\Users\\a\\Tor Browser"
    );
    assert_eq!(default_install_path(Os::Windows, None, Some("D:\\Local")), "C:\\Tor Browser");
}

#[test]
fn scopes() {
    assert_eq!(InstallScope::Global.default_path(Os::Linux, Some("/home/a"), None), "/opt/tor-browser");
    assert_eq!(InstallScope::Global.default_path(Os::MacOs, Some("/Users/a"), None), "/Applications");
    assert_eq!(InstallScope::User.default_path(Os::MacOs, Some("/Users/a"), None), "/Applications");
    assert_eq!(
        InstallScope::Global.default_path(Os::Windows, Some("C:\\u"), None),
        "C:\\u\\Tor Browser"
    );
    assert!(InstallScope::Global.needs_password(Os::MacOs));
    assert!(InstallScope::Global.needs_password(Os::Linux));
    assert!(!InstallScope::Global.needs_password(Os::Windows));
    assert!(!InstallScope::Global.needs_password(Os::Other));
    assert!(!InstallScope::User.needs_password(Os::Linux));
}

fn places(os: Os, home: Option<&str>, local: Option<&str>) -> Vec<String> {
    let mut r = Vec::new();
    while let Some(probe) = find_existing_install(os, home, local, r.len()) {
        r.push(match probe {
            Probe::Bundle(path) => path,
            Probe::Launcher { root, name } => format!("{root} : {name}"),
        });
    }
    r
}

#[test]
fn places_of_earlier_installs() {
    assert_eq!(
        places(Os::MacOs, Some("/Users/a"), None),
        vec![
            "/Applications/Tor Browser.app",
            "/Users/a/Applications/Tor Browser/Tor Browser.app",
        ]
    );
    assert_eq!(places(Os::MacOs, None, None), vec!["/Applications/Tor Browser.app"]);
    assert_eq!(
        places(Os::Linux, Some("/home/a"), None),
        vec![
            "/home/a/.local/share/tor-browser : start-tor-browser",
            "/opt/tor-browser : start-tor-browser",
        ]
    );
    assert_eq!(places(Os::Linux, None, None), vec!["/opt/tor-browser : start-tor-browser"]);
    assert_eq!(
        places(Os::Windows, None, None),
        vec!["C:\\Tor Browser : firefox.exe", "C:\\Tor Browser : Tor Browser.exe"]
    );
    assert!(places(Os::Other, Some("/home/a"), None).is_empty());
}

#[test]
fn toggling_a_theme_twice_restores_it() {
    assert_eq!(Theme::Light.toggled(), Theme::Dark);
    assert_eq!(Theme::Light.toggled().toggled(), Theme::Light);
    assert_eq!(Theme::Dark.toggled().toggled(), Theme::Dark);
}

#[test]
fn theme_colours() {
    assert_eq!(Theme::Light.bg(), 0xfbfafd);
    assert_eq!(Theme::Dark.bg(), 0x121218);
    assert_eq!(Theme::Light.text_primary(), 0x1c1622);
    assert_eq!(Theme::Dark.text_primary(), 0xebe6f5);
    assert_eq!(Theme::Light.text_secondary(), 0x6c6476);
    assert_eq!(Theme::Dark.text_secondary(), 0xa09baa);
    assert_eq!(Theme::Light.surface(), 0xffffff);
    assert_eq!(Theme::Dark.surface(), 0x1c1c24);
    assert_eq!(Theme::Light.border(), 0xe8e2f0);
    assert_eq!(Theme::Dark.border(), 0x323241);
    assert_eq!(Theme::Light.purple_soft(), 0xf2e4ff);
    assert_eq!(Theme::Dark.purple_soft(), 0x371450);
}

#[test]
fn theme_visuals() {
    let light = Theme::Light.visuals();
    assert_eq!(light.window_fill, LIGHT_BG);
    assert_eq!(light.panel_fill, LIGHT_BG);
    assert_eq!(light.selection_fill, PURPLE);
    assert_eq!(light.selection_stroke, PURPLE);
    assert!(light.widgets.is_none());
    let dark = Theme::Dark.visuals();
    assert_eq!(dark.window_fill, DARK_BG);
    assert_eq!(dark.panel_fill, DARK_BG);
    assert_eq!(dark.selection_fill, PURPLE);
    let fills = dark.widgets.unwrap();
    assert_eq!(fills.noninteractive, DARK_SURFACE);
    assert_eq!(fills.inactive, DARK_SURFACE);
    assert_eq!(fills.hovered, DARK_BORDER);
    assert_eq!(fills.active, DARK_BORDER);
}

#[test]
fn installs_at_conventional_locations_are_found_again() {
    for home in [Some("/home/a"), None] {
        let looked = places(Os::Linux, home, None);
        for scope in [InstallScope::User, InstallScope::Global] {
            let root = scope.default_path(Os::Linux, home, None);
            assert!(looked.contains(&format!("{root} : start-tor-browser")));
        }
    }
    let root = InstallScope::User.default_path(Os::Windows, Some("C:\\u"), Some("D:\\l"));
    let looked = places(Os::Windows, Some("C:\\u"), Some("D:\\l"));
    assert!(looked.contains(&format!("{root} : firefox.exe")));
    assert!(looked.contains(&format!("{root} : Tor Browser.exe")));
}

#[test]
fn parent_folders() {
    let unix = |path: &str| parent_folder(Os::Linux, path);
    assert_eq!(unix("/Applications/Tor Browser.app").as_deref(), Some("/Applications"));
    assert_eq!(unix("/Applications/Tor Browser.app//").as_deref(), Some("/Applications"));
    assert_eq!(unix("/a//b").as_deref(), Some("/a"));
    assert_eq!(unix("/a").as_deref(), Some("/"));
    assert_eq!(unix("a/b").as_deref(), Some("a"));
    assert_eq!(unix("a").as_deref(), Some(""));
    assert_eq!(unix("a\\b").as_deref(), Some(""));
    assert_eq!(unix("/"), None);
    assert_eq!(unix(""), None);
    let windows = |path: &str| parent_folder(Os::Windows, path);
    assert_eq!(windows("C:\\TB\\firefox.exe").as_deref(), Some("C:\\TB"));
    assert_eq!(windows("C:\\TB/firefox.exe").as_deref(), Some("C:\\TB"));
    assert_eq!(windows("C:\\TB").as_deref(), Some("C:\\"));
    assert_eq!(windows("C:TB").as_deref(), Some("C:"));
    assert_eq!(windows("C:\\"), None);
    assert_eq!(windows("C:"), None);
}

/// Every text of up to `longest` of these characters.
fn texts(characters: &[char], longest: usize) -> Vec<String> {
    let mut all = vec![String::new()];
    let mut last = all.clone();
    for _ in 0..longest {
        last = last
            .iter()
            .flat_map(|t| characters.iter().map(move |c| format!("{t}{c}")))
            .collect();
        all.extend(last.clone());
    }
    all
}

#[test]
fn parent_folders_are_those_of_the_standard_library() {
    for path in texts(&['/', '.', 'a', '\\'], 7) {
        let parent = std::path::Path::new(&path).parent().map(|p| p.display().to_string());
        assert_eq!(parent_folder(Os::Linux, &path), parent, "{path}");
    }
}

#[test]
fn joined_paths_are_those_of_the_standard_library() {
    for base in texts(&['/', '.', 'a', ':', '\\'], 5) {
        for name in ["Tor Browser", ".local", "a/b"] {
            let path = std::path::Path::new(&base).join(name).display().to_string();
            assert_eq!(join_path(Os::Linux, &base, name), path);
        }
    }
}

#[test]
fn dots_are_no_folders_of_their_own() {
    assert_eq!(parent_folder(Os::Linux, "/a/b/.").as_deref(), Some("/a"));
    assert_eq!(parent_folder(Os::Linux, "/a/./b").as_deref(), Some("/a"));
    assert_eq!(parent_folder(Os::Linux, "./a").as_deref(), Some("."));
    assert_eq!(parent_folder(Os::Linux, ".").as_deref(), Some(""));
    assert_eq!(parent_folder(Os::Linux, "/a/..").as_deref(), Some("/a"));
    assert_eq!(parent_folder(Os::Linux, "/."), None);
    assert_eq!(parent_folder(Os::Windows, "C:\\a\\b\\.").as_deref(), Some("C:\\a"));
    assert_eq!(parent_folder(Os::Windows, "C:./a").as_deref(), Some("C:."));
    assert_eq!(parent_folder(Os::Windows, "C:\\."), None);
}

#[test]
fn prefixes_have_no_parent_folder() {
    let windows = |path: &str| parent_folder(Os::Windows, path);
    assert_eq!(windows("\\\\server\\share"), None);
    assert_eq!(windows("\\\\server\\share\\"), None);
    assert_eq!(windows("\\\\server\\share\\a").as_deref(), Some("\\\\server\\share\\"));
    assert_eq!(windows("//server/share/a/b").as_deref(), Some("//server/share/a"));
    assert_eq!(windows("\\\\server").as_deref(), Some("\\"));
    assert_eq!(windows("\\\\.\\COM1"), None);
    assert_eq!(windows("\\\\.\\COM1\\a").as_deref(), Some("\\\\.\\COM1\\"));
    assert_eq!(windows("\\\\?\\C:\\"), None);
    assert_eq!(windows("\\\\?\\C:\\a").as_deref(), Some("\\\\?\\C:\\"));
    assert_eq!(windows("\\\\?\\C:\\a\\.").as_deref(), Some("\\\\?\\C:\\a"));
    assert_eq!(windows("\\\\?\\C:\\a/b").as_deref(), Some("\\\\?\\C:\\"));
    assert_eq!(windows("\\\\?\\UNC\\s\\h"), None);
    assert_eq!(
        windows("\\\\?\\UNC\\s\\h\\a").as_deref(),
        Some("\\\\?\\UNC\\s\\h\\")
    );
    assert_eq!(windows("\\\\?\\pictures"), None);
    assert_eq!(
        parent_folder(Os::Linux, "\\\\server\\share/a").as_deref(),
        Some("\\\\server\\share")
    );
}

#[test]
fn what_is_put_into_a_folder_stands_in_it() {
    for (os, base) in [
        (Os::Linux, "/home/a"),
        (Os::MacOs, "/"),
        (Os::Windows, "C:\\u"),
        (Os::Windows, "C:\\"),
        (Os::Windows, "D:"),
        (Os::Windows, "\\\\server\\share\\"),
        (Os::Windows, "\\\\?\\C:\\u/"),
        (Os::Other, "a"),
        (Os::Other, "."),
    ] {
        let path = join_path(os, base, "Tor Browser.app");
        assert_eq!(parent_folder(os, &path).as_deref(), Some(base));
    }
}
