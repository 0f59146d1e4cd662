//! The component manifest: which binary components the runtime needs, where
//! each is installed, from where it can be fetched and what proves that it
//! is there.
use crate::installer::ComponentShape;
use crate::resolver::{join, joined, module_candidates, module_candidates_of, separator_of};
use crate::spawn::{command, plain_command, Platform, SpawnSpec, SpawnSpecView};
use crate::text::texts;
use vstd::prelude::*;
use vstd::string::StringExecFns;

verus! {

/// One required component.
#[derive(Debug)]
pub struct ComponentManifestEntry {
    pub name: String,
    /// The name of the install directory under the cache directory.
    pub install_dir_name: String,
    /// Where the archive can be fetched, in order of preference.
    pub mirror_urls: Vec<String>,
    /// The path, below the install directory, of the file whose presence
    /// proves the installation.  Where it is empty the directory itself is
    /// the proof.
    pub verification_relative_path: Vec<String>,
}

/// A [`ComponentManifestEntry`] as a mathematical value.
pub struct EntryView {
    pub name: Seq<char>,
    pub install_dir_name: Seq<char>,
    pub mirror_urls: Seq<Seq<char>>,
    pub verification_relative_path: Seq<Seq<char>>,
}

impl View for ComponentManifestEntry {
    type V = EntryView;

    open spec fn view(&self) -> EntryView {
        EntryView {
            name: self.name@,
            install_dir_name: self.install_dir_name@,
            mirror_urls: texts(self.mirror_urls@),
            verification_relative_path: texts(self.verification_relative_path@),
        }
    }
}

/// The views of the entries of a sequence.
pub open spec fn entry_views(entries: Seq<ComponentManifestEntry>) -> Seq<EntryView> {
    entries.map_values(|e: ComponentManifestEntry| e@)
}

/// What is wrong with a list of entries.
#[derive(Clone, Copy, Debug, PartialEq, Eq, Structural)]
pub enum ManifestError {
    /// The entry at `index` names no mirror.
    NoMirrors { index: usize },
    /// The entries at `first` and `second` share an install directory.
    DuplicateDirectory { first: usize, second: usize },
}

/// The first of the entries before `count` with the install directory of
/// entry `index`, if there is one.
pub open spec fn earlier_with_directory(entries: Seq<EntryView>, index: int, count: int) -> Option<
    int,
>
    decreases count,
{
    if count <= 0 {
        None
    } else {
        match earlier_with_directory(entries, index, count - 1) {
            Some(j) => Some(j),
            None => if entries[count - 1].install_dir_name == entries[index].install_dir_name {
                Some(count - 1)
            } else {
                None
            },
        }
    }
}

/// What is wrong with entry `index`, given the entries before it: it names
/// no mirror, or else it has the install directory of an earlier entry.
pub open spec fn fault_at(entries: Seq<EntryView>, index: int) -> Option<ManifestError> {
    if entries[index].mirror_urls.len() == 0 {
        Some(ManifestError::NoMirrors { index: index as usize })
    } else {
        match earlier_with_directory(entries, index, index) {
            Some(first) => Some(
                ManifestError::DuplicateDirectory {
                    first: first as usize,
                    second: index as usize,
                },
            ),
            None => None,
        }
    }
}

/// The fault of the first faulty entry among the first `count`, if any.
pub open spec fn first_fault(entries: Seq<EntryView>, count: int) -> Option<ManifestError>
    decreases count,
{
    if count <= 0 {
        None
    } else {
        match first_fault(entries, count - 1) {
            Some(fault) => Some(fault),
            None => fault_at(entries, count - 1),
        }
    }
}

/// A manifest is valid if every entry names at least one mirror and no two
/// entries share an install directory.
pub open spec fn valid_manifest(entries: Seq<EntryView>) -> bool {
    &&& forall|i: int| 0 <= i < entries.len() ==> (#[trigger] entries[i]).mirror_urls.len() > 0
    &&& forall|i: int, j: int|
        0 <= i < j < entries.len() ==> (#[trigger] entries[i]).install_dir_name != (
        #[trigger] entries[j]).install_dir_name
}

proof fn earlier_with_directory_is_first(entries: Seq<EntryView>, index: int, count: int)
    requires
        0 <= count <= index < entries.len(),
    ensures
        match earlier_with_directory(entries, index, count) {
            Some(j) => 0 <= j < count && entries[j].install_dir_name
                == entries[index].install_dir_name,
            None => forall|j: int|
                0 <= j < count ==> (#[trigger] entries[j]).install_dir_name
                    != entries[index].install_dir_name,
        },
    decreases count,
{
    if count > 0 {
        earlier_with_directory_is_first(entries, index, count - 1);
    }
}

/// The entries are valid exactly if none of them is faulty.
pub proof fn valid_means_faultless(entries: Seq<EntryView>, count: int)
    requires
        0 <= count <= entries.len(),
    ensures
        first_fault(entries, count) is None <==> valid_manifest(entries.subrange(0, count)),
    decreases count,
{
    if count > 0 {
        let last = count - 1;
        let head = entries.subrange(0, count);
        valid_means_faultless(entries, last);
        earlier_with_directory_is_first(entries, last, last);
        if valid_manifest(head) && earlier_with_directory(entries, last, last) is Some {
            let j = earlier_with_directory(entries, last, last)->0;
            assert(head[j].install_dir_name == head[last].install_dir_name);
        }
    }
}

fn find_earlier(entries: &Vec<ComponentManifestEntry>, index: usize) -> (found: Option<usize>)
    requires
        index < entries.len(),
    ensures
        match found {
            Some(j) => earlier_with_directory(entry_views(entries@), index as int, index as int)
                == Some(j as int) && j < index,
            None => earlier_with_directory(entry_views(entries@), index as int, index as int)
                is None,
        },
{
    let mut j: usize = 0;
    while j < index
        invariant
            j <= index < entries.len(),
            earlier_with_directory(entry_views(entries@), index as int, j as int) is None,
        decreases index - j,
    {
        if entries[j].install_dir_name == entries[index].install_dir_name {
            proof {
                earlier_found_stays(entry_views(entries@), index as int, j as int, index as int);
            }
            return Some(j);
        }
        j += 1;
    }
    None
}

proof fn earlier_found_stays(entries: Seq<EntryView>, index: int, j: int, count: int)
    requires
        0 <= j < count,
        earlier_with_directory(entries, index, j) is None,
        entries[j].install_dir_name == entries[index].install_dir_name,
    ensures
        earlier_with_directory(entries, index, count) == Some(j),
    decreases count - j,
{
    if count > j + 1 {
        earlier_found_stays(entries, index, j, count - 1);
    }
}

proof fn fault_found_stays(entries: Seq<EntryView>, i: int, count: int)
    requires
        0 <= i < count,
        first_fault(entries, i) is None,
        fault_at(entries, i) is Some,
    ensures
        first_fault(entries, count) == fault_at(entries, i),
    decreases count - i,
{
    if count > i + 1 {
        fault_found_stays(entries, i, count - 1);
    }
}

/// Checks a list of entries: `Ok` exactly if it is a valid manifest, else
/// the fault of the first faulty entry.
pub fn validate(entries: &Vec<ComponentManifestEntry>) -> (checked: Result<(), ManifestError>)
    ensures
        checked is Ok <==> valid_manifest(entry_views(entries@)),
        checked matches Err(fault) ==> first_fault(
            entry_views(entries@),
            entries.len() as int,
        ) == Some(fault),
{
    let mut i: usize = 0;
    while i < entries.len()
        invariant
            i <= entries.len(),
            first_fault(entry_views(entries@), i as int) is None,
        decreases entries.len() - i,
    {
        let ghost views = entry_views(entries@);
        if entries[i].mirror_urls.len() == 0 {
            proof {
                fault_found_stays(views, i as int, entries.len() as int);
                valid_means_faultless(views, entries.len() as int);
            }
            return Err(ManifestError::NoMirrors { index: i });
        }
        match find_earlier(entries, i) {
            Some(first) => {
                proof {
                    fault_found_stays(views, i as int, entries.len() as int);
                    valid_means_faultless(views, entries.len() as int);
                }
                return Err(ManifestError::DuplicateDirectory { first, second: i });
            },
            None => {},
        }
        i += 1;
    }
    proof {
        let views = entry_views(entries@);
        valid_means_faultless(views, entries.len() as int);
        assert(views.subrange(0, entries.len() as int) =~= views);
    }
    Ok(())
}

/// The shape of each entry, as the installer needs it.
pub open spec fn shapes_of(entries: Seq<EntryView>) -> Seq<ComponentShape> {
    entries.map_values(
        |e: EntryView|
            ComponentShape {
                mirrors: e.mirror_urls.len() as usize,
                marker_specified: e.verification_relative_path.len() > 0,
            },
    )
}

/// Extracts the shapes that an installation run over `entries` starts from.
pub fn shapes(entries: &Vec<ComponentManifestEntry>) -> (shapes: Vec<ComponentShape>)
    ensures
        shapes@ == shapes_of(entry_views(entries@)),
{
    let mut shapes: Vec<ComponentShape> = Vec::new();
    let mut i: usize = 0;
    while i < entries.len()
        invariant
            i <= entries.len(),
            shapes.len() == i,
            forall|k: int| 0 <= k < i ==> shapes@[k] == shapes_of(entry_views(entries@))[k],
        decreases entries.len() - i,
    {
        let entry = &entries[i];
        shapes.push(
            ComponentShape {
                mirrors: entry.mirror_urls.len(),
                marker_specified: entry.verification_relative_path.len() > 0,
            },
        );
        i += 1;
    }
    shapes
}

/// The install directory of an entry under the cache directory.
pub open spec fn install_directory_of(
    platform: Platform,
    cache_directory: Seq<char>,
    entry: EntryView,
) -> Seq<char> {
    joined(cache_directory, seq![entry.install_dir_name], separator_of(platform))
}

/// The file that proves the installation of an entry: its verification path
/// below its install directory, or the install directory itself where the
/// entry names no such path.
pub open spec fn verification_path_of(
    platform: Platform,
    cache_directory: Seq<char>,
    entry: EntryView,
) -> Seq<char> {
    joined(
        install_directory_of(platform, cache_directory, entry),
        entry.verification_relative_path,
        separator_of(platform),
    )
}

/// Composes the install directory of an entry.
pub fn install_directory(
    platform: Platform,
    cache_directory: &str,
    entry: &ComponentManifestEntry,
) -> (directory: String)
    ensures
        directory@ == install_directory_of(platform, cache_directory@, entry@),
{
    let mut segments: Vec<String> = Vec::new();
    segments.push(entry.install_dir_name.clone());
    assert(texts(segments@) =~= seq![entry.install_dir_name@]);
    join(platform, cache_directory, &segments)
}

/// Composes the path whose existence proves the installation of an entry.
pub fn verification_path(
    platform: Platform,
    cache_directory: &str,
    entry: &ComponentManifestEntry,
) -> (path: String)
    ensures
        path@ == verification_path_of(platform, cache_directory@, entry@),
{
    let directory = install_directory(platform, cache_directory, entry);
    join(platform, directory.as_str(), &entry.verification_relative_path)
}

/// The hosts that serve the default components, in order of preference.
pub open spec fn default_hosts() -> Seq<Seq<char>> {
    seq![
        "https://cdn.playwright.dev/dbazure/download/playwright"@,
        "https://playwright.download.prss.microsoft.com/dbazure/download/playwright"@,
        "https://cdn.playwright.dev"@,
    ]
}

/// The path, on every host, of the directory that holds the archives of the
/// pinned browser build.
pub open spec fn default_build_path() -> Seq<char> {
    "/builds/chromium/1140/"@
}

/// The mirror URLs of a default component: its archive on each host.
pub open spec fn default_urls(archive: Seq<char>) -> Seq<Seq<char>> {
    default_hosts().map_values(|host: Seq<char>| host + default_build_path() + archive)
}

/// The archive of the full browser build for a platform.
pub open spec fn browser_archive(platform: Platform) -> Seq<char> {
    match platform {
        Platform::Windows => "chromium-win64.zip"@,
        Platform::MacOs => "chromium-mac.zip"@,
        Platform::Linux => "chromium-linux.zip"@,
    }
}

/// The archive of the headless-only build for a platform.
pub open spec fn headless_archive(platform: Platform) -> Seq<char> {
    match platform {
        Platform::Windows => "chromium-headless-shell-win64.zip"@,
        Platform::MacOs => "chromium-headless-shell-mac.zip"@,
        Platform::Linux => "chromium-headless-shell-linux.zip"@,
    }
}

/// The directory that an archive unpacks to on a platform.
pub open spec fn unpacked_directory(platform: Platform) -> Seq<char> {
    match platform {
        Platform::Windows => "chrome-win"@,
        Platform::MacOs => "chrome-mac"@,
        Platform::Linux => "chrome-linux"@,
    }
}

/// The executable of the full browser build, below its install directory.
pub open spec fn browser_marker(platform: Platform) -> Seq<Seq<char>> {
    match platform {
        Platform::Windows => seq![unpacked_directory(platform), "chrome.exe"@],
        Platform::MacOs => seq![
            unpacked_directory(platform),
            "Chromium.app"@,
            "Contents"@,
            "MacOS"@,
            "Chromium"@,
        ],
        Platform::Linux => seq![unpacked_directory(platform), "chrome"@],
    }
}

/// The executable of the headless-only build, below its install directory.
pub open spec fn headless_marker(platform: Platform) -> Seq<Seq<char>> {
    match platform {
        Platform::Windows => seq![unpacked_directory(platform), "headless_shell.exe"@],
        _ => seq![unpacked_directory(platform), "headless_shell"@],
    }
}

/// The full browser build with the given mirrors.
pub open spec fn browser_entry(platform: Platform, mirror_urls: Seq<Seq<char>>) -> EntryView {
    EntryView {
        name: "chromium"@,
        install_dir_name: "chromium-1140"@,
        mirror_urls,
        verification_relative_path: browser_marker(platform),
    }
}

/// The headless-only build with the given mirrors.
pub open spec fn headless_entry(platform: Platform, mirror_urls: Seq<Seq<char>>) -> EntryView {
    EntryView {
        name: "chromium-headless-shell"@,
        install_dir_name: "chromium_headless_shell-1140"@,
        mirror_urls,
        verification_relative_path: headless_marker(platform),
    }
}

/// The manifest that is used where none is configured: a full browser build
/// and a headless-only build.
pub open spec fn default_entries(platform: Platform) -> Seq<EntryView> {
    seq![
        browser_entry(platform, default_urls(browser_archive(platform))),
        headless_entry(platform, default_urls(headless_archive(platform))),
    ]
}

/// The manifest of the older configuration format, which names one URL for
/// each of the two default components: that URL is tried first, the default
/// mirrors after it.
pub open spec fn legacy_entries(
    platform: Platform,
    browser_url: Seq<char>,
    headless_url: Seq<char>,
) -> Seq<EntryView> {
    seq![
        browser_entry(platform, seq![browser_url] + default_urls(browser_archive(platform))),
        headless_entry(platform, seq![headless_url] + default_urls(headless_archive(platform))),
    ]
}

/// Two entries with the install directories of the default components and
/// at least one mirror each make a valid manifest.
pub proof fn default_shape_is_valid(
    platform: Platform,
    browser_urls: Seq<Seq<char>>,
    headless_urls: Seq<Seq<char>>,
)
    requires
        browser_urls.len() > 0,
        headless_urls.len() > 0,
    ensures
        valid_manifest(
            seq![browser_entry(platform, browser_urls), headless_entry(platform, headless_urls)],
        ),
{
    reveal_strlit("chromium-1140");
    reveal_strlit("chromium_headless_shell-1140");
    assert("chromium-1140"@.len() != "chromium_headless_shell-1140"@.len());
}

fn unpacked_directory_name(platform: Platform) -> (name: String)
    ensures
        name@ == unpacked_directory(platform),
{
    match platform {
        Platform::Windows => String::from_str("chrome-win"),
        Platform::MacOs => String::from_str("chrome-mac"),
        Platform::Linux => String::from_str("chrome-linux"),
    }
}

fn mirrors_for(first: Option<String>, archive: &str) -> (urls: Vec<String>)
    ensures
        texts(urls@) == match first {
            Some(url) => seq![url@] + default_urls(archive@),
            None => default_urls(archive@),
        },
{
    let mut urls: Vec<String> = Vec::new();
    match first {
        Some(url) => {
            urls.push(url);
        },
        None => {},
    }
    let mut primary = String::from_str("https://cdn.playwright.dev/dbazure/download/playwright");
    primary.append("/builds/chromium/1140/");
    primary.append(archive);
    let mut secondary = String::from_str(
        "https://playwright.download.prss.microsoft.com/dbazure/download/playwright",
    );
    secondary.append("/builds/chromium/1140/");
    secondary.append(archive);
    let mut tertiary = String::from_str("https://cdn.playwright.dev");
    tertiary.append("/builds/chromium/1140/");
    tertiary.append(archive);
    urls.push(primary);
    urls.push(secondary);
    urls.push(tertiary);
    urls
}

fn browser(platform: Platform, first: Option<String>) -> (entry: ComponentManifestEntry)
    ensures
        entry@ == browser_entry(
            platform,
            match first {
                Some(url) => seq![url@] + default_urls(browser_archive(platform)),
                None => default_urls(browser_archive(platform)),
            },
        ),
{
    let archive = match platform {
        Platform::Windows => "chromium-win64.zip",
        Platform::MacOs => "chromium-mac.zip",
        Platform::Linux => "chromium-linux.zip",
    };
    let mut marker: Vec<String> = Vec::new();
    marker.push(unpacked_directory_name(platform));
    match platform {
        Platform::Windows => {
            marker.push(String::from_str("chrome.exe"));
        },
        Platform::MacOs => {
            marker.push(String::from_str("Chromium.app"));
            marker.push(String::from_str("Contents"));
            marker.push(String::from_str("MacOS"));
            marker.push(String::from_str("Chromium"));
        },
        Platform::Linux => {
            marker.push(String::from_str("chrome"));
        },
    }
    assert(texts(marker@) =~= browser_marker(platform));
    ComponentManifestEntry {
        name: String::from_str("chromium"),
        install_dir_name: String::from_str("chromium-1140"),
        mirror_urls: mirrors_for(first, archive),
        verification_relative_path: marker,
    }
}

fn headless(platform: Platform, first: Option<String>) -> (entry: ComponentManifestEntry)
    ensures
        entry@ == headless_entry(
            platform,
            match first {
                Some(url) => seq![url@] + default_urls(headless_archive(platform)),
                None => default_urls(headless_archive(platform)),
            },
        ),
{
    let archive = match platform {
        Platform::Windows => "chromium-headless-shell-win64.zip",
        Platform::MacOs => "chromium-headless-shell-mac.zip",
        Platform::Linux => "chromium-headless-shell-linux.zip",
    };
    let mut marker: Vec<String> = Vec::new();
    marker.push(unpacked_directory_name(platform));
    match platform {
        Platform::Windows => {
            marker.push(String::from_str("headless_shell.exe"));
        },
        _ => {
            marker.push(String::from_str("headless_shell"));
        },
    }
    assert(texts(marker@) =~= headless_marker(platform));
    ComponentManifestEntry {
        name: String::from_str("chromium-headless-shell"),
        install_dir_name: String::from_str("chromium_headless_shell-1140"),
        mirror_urls: mirrors_for(first, archive),
        verification_relative_path: marker,
    }
}

/// The manifest that is used where none is configured.
pub fn default_manifest(platform: Platform) -> (entries: Vec<ComponentManifestEntry>)
    ensures
        entry_views(entries@) == default_entries(platform),
        valid_manifest(entry_views(entries@)),
{
    let mut entries: Vec<ComponentManifestEntry> = Vec::new();
    entries.push(browser(platform, None));
    entries.push(headless(platform, None));
    proof {
        default_shape_is_valid(
            platform,
            default_urls(browser_archive(platform)),
            default_urls(headless_archive(platform)),
        );
    }
    entries
}

/// What the configuration said about the components.
#[derive(Debug)]
pub enum ManifestSource {
    /// The present format: a list of components.
    Components { entries: Vec<ComponentManifestEntry> },
    /// The older format: one download URL for each of the two default
    /// components.
    Legacy { browser_url: String, headless_url: String },
    /// No configuration was found.
    Absent,
}

/// The manifest that a configuration source stands for.
pub open spec fn manifest_of(source: ManifestSource, platform: Platform) -> Seq<EntryView> {
    match source {
        ManifestSource::Components { entries } => entry_views(entries@),
        ManifestSource::Legacy { browser_url, headless_url } => legacy_entries(
            platform,
            browser_url@,
            headless_url@,
        ),
        ManifestSource::Absent => default_entries(platform),
    }
}

/// Turns a configuration source into the manifest to install.
///
/// A configured list of components has priority and is taken as it is, if
/// it is valid; an invalid one is refused with its first fault, not
/// replaced.  The older format and a missing configuration fall back on the
/// default components.
pub fn load_manifest(source: ManifestSource, platform: Platform) -> (loaded: Result<
    Vec<ComponentManifestEntry>,
    ManifestError,
>)
    ensures
        loaded is Ok <==> valid_manifest(manifest_of(source, platform)),
        loaded matches Ok(entries) ==> entry_views(entries@) == manifest_of(source, platform),
        loaded matches Err(fault) ==> first_fault(
            manifest_of(source, platform),
            manifest_of(source, platform).len() as int,
        ) == Some(fault),
        !(source is Components) ==> loaded is Ok,
{
    match source {
        ManifestSource::Components { entries } => {
            match validate(&entries) {
                Ok(()) => Ok(entries),
                Err(fault) => Err(fault),
            }
        },
        ManifestSource::Legacy { browser_url, headless_url } => {
            let mut entries: Vec<ComponentManifestEntry> = Vec::new();
            entries.push(browser(platform, Some(browser_url)));
            entries.push(headless(platform, Some(headless_url)));
            proof {
                default_shape_is_valid(
                    platform,
                    seq![browser_url@] + default_urls(browser_archive(platform)),
                    seq![headless_url@] + default_urls(headless_archive(platform)),
                );
            }
            Ok(entries)
        },
        ManifestSource::Absent => Ok(default_manifest(platform)),
    }
}

/// The places where a configured manifest is looked for: the file of the
/// given name in the directory of the running executable and in up to six
/// of its parents, nearest first.
pub open spec fn manifest_candidates_of(
    platform: Platform,
    ancestors: Seq<Seq<char>>,
    file_name: Seq<char>,
) -> Seq<Seq<char>> {
    module_candidates_of(platform, ancestors, seq![file_name])
}

/// Composes the places where a configured manifest is looked for.
pub fn manifest_candidates(platform: Platform, ancestors: &Vec<String>, file_name: &str) -> (
    candidates: Vec<String>)
    ensures
        texts(candidates@) == manifest_candidates_of(platform, texts(ancestors@), file_name@),
{
    let mut segments: Vec<String> = Vec::new();
    segments.push(file_name.to_owned());
    assert(texts(segments@) =~= seq![file_name@]);
    module_candidates(platform, ancestors, &segments)
}

/// The temporary file that the archive of an entry is downloaded to: in the
/// system's temporary directory, named after the install directory.
pub open spec fn download_path_of(
    platform: Platform,
    temp_directory: Seq<char>,
    entry: EntryView,
) -> Seq<char> {
    joined(temp_directory, seq![entry.install_dir_name + ".download"@], separator_of(platform))
}

/// Composes the path of the temporary file for the archive of an entry.
pub fn download_path(platform: Platform, temp_directory: &str, entry: &ComponentManifestEntry) -> (
    path: String)
    ensures
        path@ == download_path_of(platform, temp_directory@, entry@),
{
    let mut name = entry.install_dir_name.clone();
    name.append(".download");
    let mut segments: Vec<String> = Vec::new();
    segments.push(name);
    assert(texts(segments@) =~= seq![entry.install_dir_name@ + ".download"@]);
    join(platform, temp_directory, &segments)
}

/// The command that extracts an archive into a directory with the
/// platform's own tool: `tar` on Windows, `unzip` elsewhere.
pub open spec fn extraction_command_of(
    platform: Platform,
    archive: Seq<char>,
    destination: Seq<char>,
) -> SpawnSpecView {
    match platform {
        Platform::Windows => SpawnSpecView {
            hide_window: true,
            ..plain_command("tar"@, seq!["-xf"@, archive, "-C"@, destination])
        },
        _ => plain_command("unzip"@, seq!["-o"@, "-q"@, archive, "-d"@, destination]),
    }
}

/// Composes the command that extracts an archive into a directory.
pub fn extraction_command(platform: Platform, archive: &str, destination: &str) -> (spec:
    SpawnSpec)
    ensures
        spec@ == extraction_command_of(platform, archive@, destination@),
{
    let mut args: Vec<String> = Vec::new();
    match platform {
        Platform::Windows => {
            args.push(String::from_str("-xf"));
            args.push(archive.to_owned());
            args.push(String::from_str("-C"));
            args.push(destination.to_owned());
            assert(texts(args@) =~= seq!["-xf"@, archive@, "-C"@, destination@]);
            let mut spec = command(String::from_str("tar"), args);
            spec.hide_window = true;
            spec
        },
        _ => {
            args.push(String::from_str("-o"));
            args.push(String::from_str("-q"));
            args.push(archive.to_owned());
            args.push(String::from_str("-d"));
            args.push(destination.to_owned());
            assert(texts(args@) =~= seq!["-o"@, "-q"@, archive@, "-d"@, destination@]);
            command(String::from_str("unzip"), args)
        },
    }
}

} // verus!
