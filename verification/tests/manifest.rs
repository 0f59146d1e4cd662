use runtime_supervisor::installer::ComponentShape;
use runtime_supervisor::manifest::{
    default_manifest, download_path, extraction_command, install_directory, load_manifest,
    manifest_candidates, shapes, validate, verification_path, ComponentManifestEntry,
    ManifestError, ManifestSource,
};
use runtime_supervisor::spawn::Platform;

fn strings(items: &[&str]) -> Vec<String> {
    items.iter().map(|s| s.to_string()).collect()
}

fn entry(name: &str, dir: &str, urls: &[&str], marker: &[&str]) -> ComponentManifestEntry {
    ComponentManifestEntry {
        name: name.to_string(),
        install_dir_name: dir.to_string(),
        mirror_urls: strings(urls),
        verification_relative_path: strings(marker),
    }
}

#[test]
fn valid_manifest_passes() {
    let entries = vec![
        entry("a", "dir-a", &["https://one/a.zip"], &["bin", "a"]),
        entry("b", "dir-b", &["https://one/b.zip", "https://two/b.zip"], &[]),
    ];
    assert_eq!(validate(&entries), Ok(()));
    assert_eq!(validate(&Vec::new()), Ok(()));
}

#[test]
fn entry_without_mirrors_is_refused() {
    let entries = vec![
        entry("a", "dir-a", &["https://one/a.zip"], &[]),
        entry("b", "dir-b", &[], &[]),
    ];
    assert_eq!(validate(&entries), Err(ManifestError::NoMirrors { index: 1 }));
}

#[test]
fn shared_install_directory_is_refused() {
    let entries = vec![
        entry("a", "dir", &["u"], &[]),
        entry("b", "other", &["u"], &[]),
        entry("c", "dir", &["u"], &[]),
        entry("d", "dir", &["u"], &[]),
    ];
    assert_eq!(validate(&entries), Err(ManifestError::DuplicateDirectory { first: 0, second: 2 }));
}

#[test]
fn first_fault_is_reported() {
    let entries = vec![
        entry("a", "dir", &["u"], &[]),
        entry("b", "dir", &[], &[]),
        entry("c", "dir", &["u"], &[]),
    ];
    assert_eq!(validate(&entries), Err(ManifestError::NoMirrors { index: 1 }));
    let entries = vec![
        entry("a", "dir", &["u"], &[]),
        entry("b", "dir", &["u"], &[]),
        entry("c", "x", &[], &[]),
    ];
    assert_eq!(validate(&entries), Err(ManifestError::DuplicateDirectory { first: 0, second: 1 }));
}

#[test]
fn default_manifest_has_a_browser_and_a_headless_build() {
    let entries = default_manifest(Platform::Windows);
    assert_eq!(entries.len(), 2);
    assert_eq!(entries[0].name, "chromium");
    assert_eq!(entries[0].install_dir_name, "chromium-1140");
    assert_eq!(
        entries[0].mirror_urls,
        strings(&[
            "https://cdn.playwright.dev/dbazure/download/playwright/builds/chromium/1140/chromium-win64.zip",
            "https://playwright.download.prss.microsoft.com/dbazure/download/playwright/builds/chromium/1140/chromium-win64.zip",
            "https://cdn.playwright.dev/builds/chromium/1140/chromium-win64.zip",
        ])
    );
    assert_eq!(entries[0].verification_relative_path, strings(&["chrome-win", "chrome.exe"]));
    assert_eq!(entries[1].name, "chromium-headless-shell");
    assert_eq!(entries[1].install_dir_name, "chromium_headless_shell-1140");
    assert_eq!(
        entries[1].mirror_urls[0],
        "https://cdn.playwright.dev/dbazure/download/playwright/builds/chromium/1140/chromium-headless-shell-win64.zip"
    );
    assert_eq!(entries[1].mirror_urls.len(), 3);
    assert_eq!(
        entries[1].verification_relative_path,
        strings(&["chrome-win", "headless_shell.exe"])
    );
    assert_eq!(validate(&entries), Ok(()));
}

#[test]
fn default_manifest_follows_the_platform() {
    let mac = default_manifest(Platform::MacOs);
    assert_eq!(
        mac[0].mirror_urls[2],
        "https://cdn.playwright.dev/builds/chromium/1140/chromium-mac.zip"
    );
    assert_eq!(
        mac[0].verification_relative_path,
        strings(&["chrome-mac", "Chromium.app", "Contents", "MacOS", "Chromium"])
    );
    assert_eq!(mac[1].verification_relative_path, strings(&["chrome-mac", "headless_shell"]));
    let linux = default_manifest(Platform::Linux);
    assert_eq!(
        linux[1].mirror_urls[2],
        "https://cdn.playwright.dev/builds/chromium/1140/chromium-headless-shell-linux.zip"
    );
    assert_eq!(linux[0].verification_relative_path, strings(&["chrome-linux", "chrome"]));
    assert_eq!(validate(&mac), Ok(()));
    assert_eq!(validate(&linux), Ok(()));
}

#[test]
fn configured_components_have_priority() {
    let configured = vec![entry("x", "x-1", &["https://m/x.zip"], &["x"])];
    let loaded = load_manifest(ManifestSource::Components { entries: configured }, Platform::Linux)
        .expect("the configured manifest is valid");
    assert_eq!(loaded.len(), 1);
    assert_eq!(loaded[0].name, "x");
    assert_eq!(loaded[0].mirror_urls, strings(&["https://m/x.zip"]));
}

#[test]
fn invalid_configuration_is_refused_not_replaced() {
    let configured = vec![entry("x", "x-1", &[], &["x"])];
    let loaded = load_manifest(ManifestSource::Components { entries: configured }, Platform::Linux);
    assert_eq!(loaded.err(), Some(ManifestError::NoMirrors { index: 0 }));
}

#[test]
fn absent_configuration_falls_back_on_the_default() {
    let loaded = load_manifest(ManifestSource::Absent, Platform::Linux).expect("the default is valid");
    let default = default_manifest(Platform::Linux);
    assert_eq!(loaded.len(), default.len());
    assert_eq!(loaded[0].mirror_urls, default[0].mirror_urls);
    assert_eq!(loaded[1].install_dir_name, default[1].install_dir_name);
}

#[test]
fn older_format_puts_its_urls_first() {
    let loaded = load_manifest(
        ManifestSource::Legacy {
            browser_url: "https://mirror/browser.zip".to_string(),
            headless_url: "https://mirror/headless.zip".to_string(),
        },
        Platform::Windows,
    )
    .expect("the older format always loads");
    assert_eq!(loaded.len(), 2);
    assert_eq!(loaded[0].name, "chromium");
    assert_eq!(loaded[0].mirror_urls.len(), 4);
    assert_eq!(loaded[0].mirror_urls[0], "https://mirror/browser.zip");
    assert_eq!(
        loaded[0].mirror_urls[1],
        "https://cdn.playwright.dev/dbazure/download/playwright/builds/chromium/1140/chromium-win64.zip"
    );
    assert_eq!(loaded[1].mirror_urls[0], "https://mirror/headless.zip");
    assert_eq!(loaded[1].verification_relative_path, strings(&["chrome-win", "headless_shell.exe"]));
}

#[test]
fn shapes_carry_mirror_count_and_marker() {
    let entries = vec![
        entry("a", "dir-a", &["1", "2", "3"], &["bin", "a"]),
        entry("b", "dir-b", &["1"], &[]),
        entry("c", "dir-c", &[], &["c"]),
    ];
    assert_eq!(
        shapes(&entries),
        vec![
            ComponentShape { mirrors: 3, marker_specified: true },
            ComponentShape { mirrors: 1, marker_specified: false },
            ComponentShape { mirrors: 0, marker_specified: true },
        ]
    );
}

#[test]
fn component_paths_lie_under_the_cache_directory() {
    let browser = entry("chromium", "chromium-1140", &["u"], &["chrome-linux", "chrome"]);
    assert_eq!(install_directory(Platform::Linux, "/cache", &browser), "/cache/chromium-1140");
    assert_eq!(
        verification_path(Platform::Linux, "/cache", &browser),
        "/cache/chromium-1140/chrome-linux/chrome"
    );
    assert_eq!(
        verification_path(Platform::Windows, "C:\\cache", &browser),
        "C:\\cache\\chromium-1140\\chrome-linux\\chrome"
    );
    let bare = entry("x", "x-1", &["u"], &[]);
    assert_eq!(verification_path(Platform::Linux, "/cache", &bare), "/cache/x-1");
    assert_eq!(download_path(Platform::Linux, "/tmp", &browser), "/tmp/chromium-1140.download");
}

#[test]
fn manifest_is_looked_for_beside_the_executable_and_above() {
    let candidates = manifest_candidates(
        Platform::Linux,
        &strings(&["/opt/app/bin", "/opt/app"]),
        "components.json",
    );
    assert_eq!(candidates, strings(&["/opt/app/bin/components.json", "/opt/app/components.json"]));
}

#[test]
fn extraction_uses_the_platform_tool() {
    let unix = extraction_command(Platform::Linux, "/tmp/a.download", "/cache/a");
    assert_eq!(unix.program, "unzip");
    assert_eq!(unix.args, strings(&["-o", "-q", "/tmp/a.download", "-d", "/cache/a"]));
    assert!(!unix.hide_window);
    let windows = extraction_command(Platform::Windows, "C:\\t\\a.download", "C:\\c\\a");
    assert_eq!(windows.program, "tar");
    assert_eq!(windows.args, strings(&["-xf", "C:\\t\\a.download", "-C", "C:\\c\\a"]));
    assert!(windows.hide_window);
    assert!(windows.env.is_empty());
}
