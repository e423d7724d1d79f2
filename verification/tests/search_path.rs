use xtask::config::xtask::{
    Xtask, XtaskClang, XtaskPlatform, XtaskPlatformMacos, XtaskPlatformMacosSearchPath, XtaskRust,
    XtaskRustToolchain,
};
use xtask::config::Config;
use xtask::ordered_map::OrderedMap;
use xtask::search_path::{additional_locations, augmented_search_path, Host, Platform};

fn config(search_paths: Vec<XtaskPlatformMacosSearchPath>) -> Config {
    Config {
        xtask: Xtask {
            clang: XtaskClang {
                matchers: OrderedMap::new(),
                platform: XtaskPlatform { macos: XtaskPlatformMacos { search_paths } },
                suffix: "-16".to_string(),
                version: "16".to_string(),
            },
            rust: XtaskRust {
                components: OrderedMap::new(),
                toolchain: XtaskRustToolchain { nightly: "nightly-2024-01-01".to_string() },
            },
        },
        stable_toolchain: "stable".to_string(),
    }
}

fn host(platform: Platform, path: Option<&str>, homebrew: &[&str]) -> Host {
    Host {
        platform,
        path: path.map(|p| p.to_string()),
        homebrew: homebrew.iter().map(|p| p.to_string()).collect(),
    }
}

#[test]
fn another_platform_keeps_the_ambient_path() {
    let config = config(vec![XtaskPlatformMacosSearchPath::Homebrew]);
    for path in ["/usr/bin:/bin", "/b:/a:/b", "", ":", "C:\\tools;D:\\bin"] {
        let host = host(Platform::Other, Some(path), &["/opt/homebrew/opt/llvm/bin"]);
        assert_eq!(augmented_search_path(&config, &host), path);
        assert!(additional_locations(&config, &host).is_empty());
    }
}

#[test]
fn an_unset_path_counts_as_empty() {
    let config = config(vec![XtaskPlatformMacosSearchPath::Homebrew]);
    let other = host(Platform::Other, None, &["/opt/homebrew/bin"]);
    assert_eq!(augmented_search_path(&config, &other), "");
    let mac = host(Platform::Macos, None, &["/opt/homebrew/bin", "/usr/local/bin"]);
    assert_eq!(augmented_search_path(&config, &mac), "/opt/homebrew/bin:/usr/local/bin");
}

#[test]
fn macos_appends_the_homebrew_locations() {
    let config = config(vec![XtaskPlatformMacosSearchPath::Homebrew]);
    let host = host(
        Platform::Macos,
        Some("/usr/bin:/bin"),
        &["/opt/homebrew/opt/llvm@16/bin", "/usr/local/opt/llvm@16/bin"],
    );
    assert_eq!(
        augmented_search_path(&config, &host),
        "/usr/bin:/bin:/opt/homebrew/opt/llvm@16/bin:/usr/local/opt/llvm@16/bin"
    );
    assert_eq!(
        additional_locations(&config, &host),
        vec!["/opt/homebrew/opt/llvm@16/bin", "/usr/local/opt/llvm@16/bin"]
    );
}

#[test]
fn macos_without_strategies_adds_nothing() {
    let config = config(vec![]);
    let host = host(Platform::Macos, Some("/usr/bin"), &["/opt/homebrew/bin"]);
    assert_eq!(augmented_search_path(&config, &host), "/usr/bin");
    assert!(additional_locations(&config, &host).is_empty());
}

#[test]
fn each_location_is_added_once() {
    let config = config(vec![
        XtaskPlatformMacosSearchPath::Homebrew,
        XtaskPlatformMacosSearchPath::Homebrew,
    ]);
    let host = host(Platform::Macos, Some("/usr/bin"), &["/a", "/b", "/a"]);
    assert_eq!(additional_locations(&config, &host), vec!["/a", "/b"]);
    assert_eq!(augmented_search_path(&config, &host), "/usr/bin:/a:/b");
}

#[test]
fn the_ambient_path_is_not_reordered() {
    let config = config(vec![XtaskPlatformMacosSearchPath::Homebrew]);
    let host = host(Platform::Macos, Some("/z:/a:/z"), &["/a"]);
    assert_eq!(augmented_search_path(&config, &host), "/z:/a:/z:/a");
}
