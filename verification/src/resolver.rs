//! The path cascade: where the interpreter, its modules and the component
//! cache are to be found.
//!
//! Each resource is searched for in a list of candidate locations in
//! priority order.  This module composes the candidates and picks among
//! them; whether a candidate exists is for the caller to find out and to
//! report as one `bool` per candidate.
use crate::spawn::{command, plain_command, Platform, SpawnSpec, SpawnSpecView};
use crate::text::texts;
use vstd::prelude::*;
use vstd::string::StringExecFns;

verus! {

/// How many parent directories above the executable's own are searched.
pub const PARENT_LEVELS: usize = 6;

/// Where the runtime was found, relative to the host application.
#[derive(Clone, Copy, Debug, PartialEq, Eq, Structural)]
pub enum DeploymentContext {
    /// Beside the running executable.
    Bundled,
    /// In one of the parent directories: a developer's checkout.
    Development,
    /// On the system's search path.
    System,
}

/// The character between the segments of a path.
pub open spec fn separator_of(platform: Platform) -> char {
    match platform {
        Platform::Windows => '\\',
        _ => '/',
    }
}

/// The character between the entries of a search-path variable.
pub open spec fn list_separator_of(platform: Platform) -> char {
    match platform {
        Platform::Windows => ';',
        _ => ':',
    }
}

/// `base` with each segment appended after a separator.
pub open spec fn joined(base: Seq<char>, segments: Seq<Seq<char>>, separator: char) -> Seq<char>
    decreases segments.len(),
{
    if segments.len() == 0 {
        base
    } else {
        joined(base, segments.drop_last(), separator) + seq![separator] + segments.last()
    }
}

/// A joined path is never shorter than its base, and holds at least the
/// separators.
pub proof fn joined_length(base: Seq<char>, segments: Seq<Seq<char>>, separator: char)
    ensures
        joined(base, segments, separator).len() >= base.len() + segments.len(),
    decreases segments.len(),
{
    if segments.len() > 0 {
        joined_length(base, segments.drop_last(), separator);
    }
}

fn separator_text(platform: Platform) -> (s: &'static str)
    ensures
        s@ == seq![separator_of(platform)],
{
    proof {
        reveal_strlit("\\");
        reveal_strlit("/");
    }
    let s = match platform {
        Platform::Windows => "\\",
        _ => "/",
    };
    s
}

fn list_separator_text(platform: Platform) -> (s: &'static str)
    ensures
        s@ == seq![list_separator_of(platform)],
{
    proof {
        reveal_strlit(";");
        reveal_strlit(":");
    }
    let s = match platform {
        Platform::Windows => ";",
        _ => ":",
    };
    s
}

/// Appends the segments to `base`, each after the platform's separator.
pub fn join(platform: Platform, base: &str, segments: &Vec<String>) -> (path: String)
    ensures
        path@ == joined(base@, texts(segments@), separator_of(platform)),
{
    let mut path = base.to_owned();
    let mut i: usize = 0;
    while i < segments.len()
        invariant
            i <= segments.len(),
            path@ == joined(base@, texts(segments@.subrange(0, i as int)), separator_of(platform)),
        decreases segments.len() - i,
    {
        path.append(separator_text(platform));
        path.append(segments[i].as_str());
        proof {
            let next = texts(segments@.subrange(0, i + 1));
            assert(next.drop_last() =~= texts(segments@.subrange(0, i as int)));
        }
        i += 1;
    }
    assert(segments@.subrange(0, i as int) =~= segments@);
    path
}

/// One place where the interpreter may be.
#[derive(Debug)]
pub struct Candidate {
    pub context: DeploymentContext,
    /// The executable: a path, or for [`DeploymentContext::System`] a bare
    /// name.
    pub location: String,
    /// The directory that holds the executable; `None` for a bare name.
    pub directory: Option<String>,
}

/// A [`Candidate`] as a mathematical value.
pub struct CandidateView {
    pub context: DeploymentContext,
    pub location: Seq<char>,
    pub directory: Option<Seq<char>>,
}

impl View for Candidate {
    type V = CandidateView;

    open spec fn view(&self) -> CandidateView {
        CandidateView {
            context: self.context,
            location: self.location@,
            directory: match self.directory {
                Some(dir) => Some(dir@),
                None => None,
            },
        }
    }
}

/// The views of the candidates of a sequence.
pub open spec fn candidate_views(candidates: Seq<Candidate>) -> Seq<CandidateView> {
    candidates.map_values(|c: Candidate| c@)
}

/// How many of the given ancestor directories are searched: the
/// executable's own and up to [`PARENT_LEVELS`] above it.
pub open spec fn searched_levels(ancestors: int) -> int {
    if ancestors <= PARENT_LEVELS + 1 {
        ancestors
    } else {
        PARENT_LEVELS + 1
    }
}

/// The candidate for the runtime under the ancestor directory of the given
/// level (0: the executable's own directory).
pub open spec fn tree_candidate(
    platform: Platform,
    ancestors: Seq<Seq<char>>,
    runtime_dir: Seq<Seq<char>>,
    executable: Seq<char>,
    level: int,
) -> CandidateView {
    let directory = joined(ancestors[level], runtime_dir, separator_of(platform));
    CandidateView {
        context: if level == 0 {
            DeploymentContext::Bundled
        } else {
            DeploymentContext::Development
        },
        location: directory + seq![separator_of(platform)] + executable,
        directory: Some(directory),
    }
}

/// The places where the interpreter is looked for, in priority order.
///
/// `ancestors` are the directory of the running executable and its parents,
/// nearest first; `runtime_dir` leads from one of them to the directory of
/// the runtime, which holds `executable`.  First comes the executable's own
/// directory, then up to six parents, last the bare name `system_name`.
pub open spec fn interpreter_candidates_of(
    platform: Platform,
    ancestors: Seq<Seq<char>>,
    runtime_dir: Seq<Seq<char>>,
    executable: Seq<char>,
    system_name: Seq<char>,
) -> Seq<CandidateView> {
    let levels = searched_levels(ancestors.len() as int);
    Seq::new(
        (levels + 1) as nat,
        |i: int|
            if i < levels {
                tree_candidate(platform, ancestors, runtime_dir, executable, i)
            } else {
                CandidateView {
                    context: DeploymentContext::System,
                    location: system_name,
                    directory: None,
                }
            },
    )
}

/// Composes the places where the interpreter is looked for.
pub fn interpreter_candidates(
    platform: Platform,
    ancestors: &Vec<String>,
    runtime_dir: &Vec<String>,
    executable: &str,
    system_name: &str,
) -> (candidates: Vec<Candidate>)
    ensures
        candidate_views(candidates@) == interpreter_candidates_of(
            platform,
            texts(ancestors@),
            texts(runtime_dir@),
            executable@,
            system_name@,
        ),
{
    let levels = if ancestors.len() <= PARENT_LEVELS + 1 {
        ancestors.len()
    } else {
        PARENT_LEVELS + 1
    };
    let ghost wanted = interpreter_candidates_of(
        platform,
        texts(ancestors@),
        texts(runtime_dir@),
        executable@,
        system_name@,
    );
    let mut candidates: Vec<Candidate> = Vec::new();
    let mut level: usize = 0;
    while level < levels
        invariant
            level <= levels,
            levels == searched_levels(ancestors.len() as int),
            wanted == interpreter_candidates_of(
                platform,
                texts(ancestors@),
                texts(runtime_dir@),
                executable@,
                system_name@,
            ),
            candidates.len() == level,
            forall|i: int| 0 <= i < level ==> candidates@[i]@ == wanted[i],
        decreases levels - level,
    {
        let directory = join(platform, ancestors[level].as_str(), runtime_dir);
        let mut location = directory.clone();
        location.append(separator_text(platform));
        location.append(executable);
        let context = if level == 0 {
            DeploymentContext::Bundled
        } else {
            DeploymentContext::Development
        };
        candidates.push(Candidate { context, location, directory: Some(directory) });
        level += 1;
    }
    candidates.push(
        Candidate {
            context: DeploymentContext::System,
            location: system_name.to_owned(),
            directory: None,
        },
    );
    candidates
}

/// The command that asks an interpreter for its version: how a bare name is
/// probed.
pub open spec fn version_query_of(program: Seq<char>) -> SpawnSpecView {
    plain_command(program, seq!["--version"@])
}

/// Builds the command that asks `program` for its version.
pub fn version_query(program: &str) -> (spec: SpawnSpec)
    ensures
        spec@ == version_query_of(program@),
{
    let mut args: Vec<String> = Vec::new();
    args.push(String::from_str("--version"));
    assert(texts(args@) =~= seq!["--version"@]);
    command(program.to_owned(), args)
}

/// Whether candidate `i` was found: a candidate without a report counts as
/// missing.
pub open spec fn found_at(found: Seq<bool>, i: int) -> bool {
    0 <= i < found.len() && found[i]
}

/// The first of `count` candidates that was found, if any was.
pub open spec fn first_found(found: Seq<bool>, count: int) -> Option<int>
    decreases count,
{
    if count <= 0 {
        None
    } else {
        match first_found(found, count - 1) {
            Some(i) => Some(i),
            None => if found_at(found, count - 1) {
                Some(count - 1)
            } else {
                None
            },
        }
    }
}

/// What [`first_found`] finds is found, and nothing before it is.
pub proof fn first_found_is_first(found: Seq<bool>, count: int)
    ensures
        match first_found(found, count) {
            Some(i) => 0 <= i < count && found_at(found, i) && forall|j: int|
                0 <= j < i ==> !found_at(found, j),
            None => forall|j: int| 0 <= j < count ==> !found_at(found, j),
        },
    decreases count,
{
    if count > 0 {
        first_found_is_first(found, count - 1);
    }
}

/// Searches a candidate list: the index of the first of `count` candidates
/// that exists.
pub fn first_existing(found: &Vec<bool>, count: usize) -> (index: Option<usize>)
    ensures
        match index {
            Some(i) => first_found(found@, count as int) == Some(i as int),
            None => first_found(found@, count as int) is None,
        },
        match index {
            Some(i) => i < count && found_at(found@, i as int) && forall|j: int|
                0 <= j < i ==> !found_at(found@, j),
            None => forall|j: int| 0 <= j < count ==> !found_at(found@, j),
        },
{
    let mut i: usize = 0;
    while i < count
        invariant
            i <= count,
            first_found(found@, i as int) is None,
        decreases count - i,
    {
        if i < found.len() && found[i] {
            proof {
                first_found_from(found@, i as int, count as int);
                first_found_is_first(found@, count as int);
            }
            return Some(i);
        }
        i += 1;
    }
    proof {
        first_found_is_first(found@, count as int);
    }
    None
}

proof fn first_found_from(found: Seq<bool>, i: int, count: int)
    requires
        0 <= i < count,
        first_found(found, i) is None,
        found_at(found, i),
    ensures
        first_found(found, count) == Some(i),
    decreases count - i,
{
    if count > i + 1 {
        first_found_from(found, i, count - 1);
    }
}

/// No candidate exists.
#[derive(Debug)]
pub struct NotFound {
    /// The locations that were tried, in the order in which they were tried.
    pub tried: Vec<String>,
}

/// The locations of the candidates, in order.
pub open spec fn locations(candidates: Seq<CandidateView>) -> Seq<Seq<char>> {
    candidates.map_values(|c: CandidateView| c.location)
}

/// The interpreter that a search finds: the first candidate that exists, or
/// the list of what was tried.
pub open spec fn resolution_of(candidates: Seq<CandidateView>, found: Seq<bool>) -> Result<
    CandidateView,
    Seq<Seq<char>>,
> {
    match first_found(found, candidates.len() as int) {
        Some(i) => Ok(candidates[i]),
        None => Err(locations(candidates)),
    }
}

/// Picks the interpreter: the first candidate that was found.  Where none
/// was, the error lists every location that was tried.
pub fn resolve_interpreter(candidates: Vec<Candidate>, found: &Vec<bool>) -> (resolved: Result<
    Candidate,
    NotFound,
>)
    ensures
        match resolved {
            Ok(candidate) => resolution_of(candidate_views(candidates@), found@) == Ok::<
                CandidateView,
                Seq<Seq<char>>,
            >(candidate@),
            Err(missing) => resolution_of(candidate_views(candidates@), found@) == Err::<
                CandidateView,
                Seq<Seq<char>>,
            >(texts(missing.tried@)),
        },
{
    let mut candidates = candidates;
    match first_existing(found, candidates.len()) {
        Some(i) => {
            proof {
                first_found_is_first(found@, candidates.len() as int);
            }
            let chosen = candidates.swap_remove(i);
            Ok(chosen)
        },
        None => {
            let mut tried: Vec<String> = Vec::new();
            let mut i: usize = 0;
            while i < candidates.len()
                invariant
                    i <= candidates.len(),
                    tried.len() == i,
                    forall|k: int| 0 <= k < i ==> tried@[k]@ == candidates@[k]@.location,
                decreases candidates.len() - i,
            {
                tried.push(candidates[i].location.clone());
                i += 1;
            }
            assert(texts(tried@) =~= locations(candidate_views(candidates@)));
            Err(NotFound { tried })
        },
    }
}

/// The location that a search over plain locations finds: the first that
/// exists, or the list of what was tried.
pub open spec fn location_of(candidates: Seq<Seq<char>>, found: Seq<bool>) -> Result<
    Seq<char>,
    Seq<Seq<char>>,
> {
    match first_found(found, candidates.len() as int) {
        Some(i) => Ok(candidates[i]),
        None => Err(candidates),
    }
}

/// Picks the first location that was found.  Where none was, the error
/// lists every location that was tried.
pub fn resolve_location(candidates: Vec<String>, found: &Vec<bool>) -> (resolved: Result<
    String,
    NotFound,
>)
    ensures
        match resolved {
            Ok(location) => location_of(texts(candidates@), found@) == Ok::<
                Seq<char>,
                Seq<Seq<char>>,
            >(location@),
            Err(missing) => location_of(texts(candidates@), found@) == Err::<
                Seq<char>,
                Seq<Seq<char>>,
            >(texts(missing.tried@)),
        },
{
    let mut candidates = candidates;
    match first_existing(found, candidates.len()) {
        Some(i) => {
            proof {
                first_found_is_first(found@, candidates.len() as int);
            }
            Ok(candidates.swap_remove(i))
        },
        None => Err(NotFound { tried: candidates }),
    }
}

/// The search follows the deployment: a runtime beside the executable wins;
/// failing that, the nearest parent directory that holds one; failing that,
/// the system's interpreter; and where none of these is there, nothing is
/// found and every candidate is reported as tried.
pub proof fn resolution_follows_deployment(
    platform: Platform,
    ancestors: Seq<Seq<char>>,
    runtime_dir: Seq<Seq<char>>,
    executable: Seq<char>,
    system_name: Seq<char>,
    found: Seq<bool>,
)
    ensures
        ({
            let candidates = interpreter_candidates_of(
                platform,
                ancestors,
                runtime_dir,
                executable,
                system_name,
            );
            let levels = searched_levels(ancestors.len() as int);
            let resolved = resolution_of(candidates, found);
            &&& levels >= 1 && found_at(found, 0) ==> resolved == Ok::<
                CandidateView,
                Seq<Seq<char>>,
            >(tree_candidate(platform, ancestors, runtime_dir, executable, 0))
                && resolved->Ok_0.context == DeploymentContext::Bundled
            &&& forall|level: int|
                1 <= level < levels && found_at(found, level) && (forall|j: int|
                    0 <= j < level ==> !found_at(found, j)) ==> resolved == Ok::<
                    CandidateView,
                    Seq<Seq<char>>,
                >(#[trigger] tree_candidate(platform, ancestors, runtime_dir, executable, level))
                    && resolved->Ok_0.context == DeploymentContext::Development
            &&& found_at(found, levels) && (forall|j: int| 0 <= j < levels ==> !found_at(found, j))
                ==> resolved == Ok::<CandidateView, Seq<Seq<char>>>(
                CandidateView {
                    context: DeploymentContext::System,
                    location: system_name,
                    directory: None,
                },
            )
            &&& (forall|j: int| 0 <= j <= levels ==> !found_at(found, j)) ==> resolved == Err::<
                CandidateView,
                Seq<Seq<char>>,
            >(locations(candidates))
        }),
{
    let candidates = interpreter_candidates_of(
        platform,
        ancestors,
        runtime_dir,
        executable,
        system_name,
    );
    first_found_is_first(found, candidates.len() as int);
}

/// The places where a directory of modules is looked for: under the
/// executable's own directory and under up to six parents, nearest first.
pub open spec fn module_candidates_of(
    platform: Platform,
    ancestors: Seq<Seq<char>>,
    modules_dir: Seq<Seq<char>>,
) -> Seq<Seq<char>> {
    Seq::new(
        searched_levels(ancestors.len() as int) as nat,
        |i: int| joined(ancestors[i], modules_dir, separator_of(platform)),
    )
}

/// Composes the places where a directory of modules is looked for.
pub fn module_candidates(platform: Platform, ancestors: &Vec<String>, modules_dir: &Vec<String>) -> (
    candidates: Vec<String>)
    ensures
        texts(candidates@) == module_candidates_of(
            platform,
            texts(ancestors@),
            texts(modules_dir@),
        ),
{
    let levels = if ancestors.len() <= PARENT_LEVELS + 1 {
        ancestors.len()
    } else {
        PARENT_LEVELS + 1
    };
    let mut candidates: Vec<String> = Vec::new();
    let mut level: usize = 0;
    while level < levels
        invariant
            level <= levels,
            levels == searched_levels(ancestors.len() as int),
            candidates.len() == level,
            forall|i: int|
                0 <= i < level ==> candidates@[i]@ == joined(
                    texts(ancestors@)[i],
                    texts(modules_dir@),
                    separator_of(platform),
                ),
        decreases levels - level,
    {
        candidates.push(join(platform, ancestors[level].as_str(), modules_dir));
        level += 1;
    }
    candidates
}

/// The candidates that exist, each once, in the order of their first
/// occurrence.
pub open spec fn existing_distinct(candidates: Seq<Seq<char>>, found: Seq<bool>) -> Seq<
    Seq<char>,
>
    decreases candidates.len(),
{
    if candidates.len() == 0 {
        Seq::empty()
    } else {
        let front = existing_distinct(candidates.drop_last(), found);
        if found_at(found, candidates.len() - 1) && !front.contains(candidates.last()) {
            front.push(candidates.last())
        } else {
            front
        }
    }
}

/// The module search path holds a location exactly if it is a candidate
/// that exists, and holds none twice.
pub proof fn existing_distinct_is_exact(candidates: Seq<Seq<char>>, found: Seq<bool>)
    ensures
        forall|path: Seq<char>|
            existing_distinct(candidates, found).contains(path) <==> exists|i: int|
                0 <= i < candidates.len() && found_at(found, i) && #[trigger] candidates[i]
                    == path,
        existing_distinct(candidates, found).no_duplicates(),
        existing_distinct(candidates, found).len() <= candidates.len(),
    decreases candidates.len(),
{
    let result = existing_distinct(candidates, found);
    if candidates.len() > 0 {
        let shorter = candidates.drop_last();
        let front = existing_distinct(shorter, found);
        let last = candidates.len() - 1;
        existing_distinct_is_exact(shorter, found);
        assert forall|path: Seq<char>| result.contains(path) implies exists|i: int|
            0 <= i < candidates.len() && found_at(found, i) && #[trigger] candidates[i]
                == path by {
            if front.contains(path) {
                let i = choose|i: int|
                    0 <= i < shorter.len() && found_at(found, i) && #[trigger] shorter[i] == path;
                assert(candidates[i] == path);
            } else {
                assert(candidates[last] == path);
            }
        }
        assert forall|path: Seq<char>|
            (exists|i: int|
                0 <= i < candidates.len() && found_at(found, i) && #[trigger] candidates[i]
                    == path) implies result.contains(path) by {
            let i = choose|i: int|
                0 <= i < candidates.len() && found_at(found, i) && #[trigger] candidates[i]
                    == path;
            if i < last {
                assert(shorter[i] == path);
                assert(front.contains(path));
                let k = choose|k: int| 0 <= k < front.len() && front[k] == path;
                assert(result[k] == path);
            } else if !front.contains(path) {
                assert(result[front.len() as int] == path);
            }
        }
    }
}

fn holds_text(paths: &Vec<String>, path: &String) -> (held: bool)
    ensures
        held == texts(paths@).contains(path@),
{
    let mut i: usize = 0;
    while i < paths.len()
        invariant
            i <= paths.len(),
            forall|k: int| 0 <= k < i ==> texts(paths@)[k] != path@,
        decreases paths.len() - i,
    {
        if paths[i] == *path {
            assert(texts(paths@)[i as int] == path@);
            return true;
        }
        i += 1;
    }
    false
}

/// The module search path: of the candidates, those that exist, each once,
/// in their order.
pub fn resolve_module_search_path(candidates: &Vec<String>, found: &Vec<bool>) -> (paths: Vec<
    String,
>)
    ensures
        texts(paths@) == existing_distinct(texts(candidates@), found@),
        texts(paths@).no_duplicates(),
        forall|path: Seq<char>|
            texts(paths@).contains(path) <==> exists|i: int|
                0 <= i < candidates.len() && found_at(found@, i) && #[trigger] texts(
                    candidates@,
                )[i] == path,
{
    let mut paths: Vec<String> = Vec::new();
    let mut i: usize = 0;
    while i < candidates.len()
        invariant
            i <= candidates.len(),
            texts(paths@) == existing_distinct(texts(candidates@).subrange(0, i as int), found@),
        decreases candidates.len() - i,
    {
        proof {
            let next = texts(candidates@).subrange(0, i + 1);
            assert(next.drop_last() =~= texts(candidates@).subrange(0, i as int));
        }
        if i < found.len() && found[i] && !holds_text(&paths, &candidates[i]) {
            let path = candidates[i].clone();
            paths.push(path);
        }
        i += 1;
    }
    proof {
        assert(texts(candidates@).subrange(0, i as int) =~= texts(candidates@));
        existing_distinct_is_exact(texts(candidates@), found@);
    }
    paths
}

/// A location hint from the environment counts only if it is set and not
/// empty.
pub open spec fn usable(hint: Option<Seq<char>>) -> bool {
    hint is Some && hint->0.len() > 0
}

/// The directory of the component cache.
///
/// It lies under the per-user application-data root where the environment
/// names one; else in a dot-directory of the application under the user's
/// home; and where that is not known either, beside the executable: a last
/// resort for a broken configuration.
pub open spec fn cache_directory_of(
    platform: Platform,
    app_name: Seq<char>,
    cache_name: Seq<char>,
    app_data: Option<Seq<char>>,
    home: Option<Seq<char>>,
    exe_dir: Seq<char>,
) -> Seq<char> {
    let separator = separator_of(platform);
    if usable(app_data) {
        joined(app_data->0, seq![app_name, cache_name], separator)
    } else if usable(home) {
        joined(home->0, seq![seq!['.'] + app_name, cache_name], separator)
    } else {
        joined(exe_dir, seq![cache_name], separator)
    }
}

/// The cache directory is never the empty path, whatever the environment
/// holds: with every hint unset it still names a place.
pub proof fn cache_directory_is_never_empty(
    platform: Platform,
    app_name: Seq<char>,
    cache_name: Seq<char>,
    app_data: Option<Seq<char>>,
    home: Option<Seq<char>>,
    exe_dir: Seq<char>,
)
    ensures
        cache_directory_of(platform, app_name, cache_name, app_data, home, exe_dir).len() > 0,
        !usable(app_data) && !usable(home) ==> cache_directory_of(
            platform,
            app_name,
            cache_name,
            app_data,
            home,
            exe_dir,
        ) == exe_dir + seq![separator_of(platform)] + cache_name,
{
    let separator = separator_of(platform);
    joined_length(exe_dir, seq![cache_name], separator);
    if usable(app_data) {
        joined_length(app_data->0, seq![app_name, cache_name], separator);
    }
    if usable(home) {
        joined_length(home->0, seq![seq!['.'] + app_name, cache_name], separator);
    }
    let one = seq![cache_name];
    assert(joined(exe_dir, one.drop_last(), separator) == exe_dir);
}

fn hint_text<'a>(hint: &'a Option<String>) -> (text: Option<&'a str>)
    ensures
        match text {
            Some(t) => usable(Some(hint->0@)) && hint is Some && t@ == hint->0@,
            None => hint is None || hint->0@.len() == 0,
        },
{
    match hint {
        Some(value) => {
            if value.as_str().is_empty() {
                None
            } else {
                Some(value.as_str())
            }
        },
        None => None,
    }
}

/// The view of an optional string.
pub open spec fn optional_text(value: Option<String>) -> Option<Seq<char>> {
    match value {
        Some(s) => Some(s@),
        None => None,
    }
}

/// Resolves the directory of the component cache.  This always succeeds.
pub fn resolve_cache_directory(
    platform: Platform,
    app_name: &str,
    cache_name: &str,
    app_data: &Option<String>,
    home: &Option<String>,
    exe_dir: &str,
) -> (directory: String)
    ensures
        directory@ == cache_directory_of(
            platform,
            app_name@,
            cache_name@,
            optional_text(*app_data),
            optional_text(*home),
            exe_dir@,
        ),
        directory@.len() > 0,
{
    proof {
        cache_directory_is_never_empty(
            platform,
            app_name@,
            cache_name@,
            optional_text(*app_data),
            optional_text(*home),
            exe_dir@,
        );
        reveal_strlit(".");
    }
    let mut segments: Vec<String> = Vec::new();
    match hint_text(app_data) {
        Some(root) => {
            segments.push(app_name.to_owned());
            segments.push(cache_name.to_owned());
            assert(texts(segments@) =~= seq![app_name@, cache_name@]);
            join(platform, root, &segments)
        },
        None => {
            match hint_text(home) {
                Some(root) => {
                    let mut hidden = String::from_str(".");
                    hidden.append(app_name);
                    assert(hidden@ =~= seq!['.'] + app_name@);
                    segments.push(hidden);
                    segments.push(cache_name.to_owned());
                    assert(texts(segments@) =~= seq![seq!['.'] + app_name@, cache_name@]);
                    join(platform, root, &segments)
                },
                None => {
                    segments.push(cache_name.to_owned());
                    assert(texts(segments@) =~= seq![cache_name@]);
                    join(platform, exe_dir, &segments)
                },
            }
        },
    }
}

/// The search path for child processes: the system's own with the runtime's
/// directory put before it.  Without a runtime directory (an interpreter
/// from the system) it is the system's own.
pub open spec fn enhanced_search_path_of(
    platform: Platform,
    runtime_dir: Option<Seq<char>>,
    inherited: Seq<char>,
) -> Seq<char> {
    match runtime_dir {
        None => inherited,
        Some(dir) => if inherited.len() == 0 {
            dir
        } else {
            dir + seq![list_separator_of(platform)] + inherited
        },
    }
}

/// Resolves the search path for child processes.
pub fn resolve_enhanced_search_path(
    platform: Platform,
    runtime_dir: &Option<String>,
    inherited: &str,
) -> (path: String)
    ensures
        path@ == enhanced_search_path_of(platform, optional_text(*runtime_dir), inherited@),
{
    match runtime_dir {
        None => inherited.to_owned(),
        Some(dir) => {
            let mut path = dir.clone();
            if !inherited.is_empty() {
                path.append(list_separator_text(platform));
                path.append(inherited);
            }
            path
        },
    }
}

/// The search path of the runtime directory comes first in the enhanced
/// path, and the system's own path is kept behind it.
pub proof fn enhanced_search_path_keeps_system_path(
    platform: Platform,
    runtime_dir: Seq<char>,
    inherited: Seq<char>,
)
    ensures
        ({
            let path = enhanced_search_path_of(platform, Some(runtime_dir), inherited);
            &&& path.subrange(0, runtime_dir.len() as int) == runtime_dir
            &&& path.subrange(path.len() - inherited.len(), path.len() as int) == inherited
        }),
{
    let path = enhanced_search_path_of(platform, Some(runtime_dir), inherited);
}

/// The entries of a search path in one string, the platform's list
/// separator between them.
pub open spec fn search_list(entries: Seq<Seq<char>>, separator: char) -> Seq<char>
    decreases entries.len(),
{
    if entries.len() == 0 {
        Seq::empty()
    } else if entries.len() == 1 {
        entries[0]
    } else {
        search_list(entries.drop_last(), separator) + seq![separator] + entries.last()
    }
}

/// Writes a list of directories as the value of a search-path variable.
pub fn render_search_list(platform: Platform, entries: &Vec<String>) -> (value: String)
    ensures
        value@ == search_list(texts(entries@), list_separator_of(platform)),
{
    let mut value = String::new();
    let mut i: usize = 0;
    while i < entries.len()
        invariant
            i <= entries.len(),
            value@ == search_list(
                texts(entries@.subrange(0, i as int)),
                list_separator_of(platform),
            ),
        decreases entries.len() - i,
    {
        proof {
            let next = texts(entries@.subrange(0, i + 1));
            assert(next.drop_last() =~= texts(entries@.subrange(0, i as int)));
        }
        if i > 0 {
            value.append(list_separator_text(platform));
        }
        value.append(entries[i].as_str());
        i += 1;
    }
    assert(entries@.subrange(0, i as int) =~= entries@);
    value
}

/// Everything a launch needs to know about where things are.  It is made
/// anew for every operation and never changed.
#[derive(Debug)]
pub struct ResolvedPaths {
    pub context: DeploymentContext,
    pub interpreter_executable: String,
    pub module_search_path: Vec<String>,
    pub cache_directory: String,
    pub enhanced_search_path: String,
}

/// A [`ResolvedPaths`] as a mathematical value.
pub struct ResolvedPathsView {
    pub context: DeploymentContext,
    pub interpreter_executable: Seq<char>,
    pub module_search_path: Seq<Seq<char>>,
    pub cache_directory: Seq<char>,
    pub enhanced_search_path: Seq<char>,
}

impl View for ResolvedPaths {
    type V = ResolvedPathsView;

    open spec fn view(&self) -> ResolvedPathsView {
        ResolvedPathsView {
            context: self.context,
            interpreter_executable: self.interpreter_executable@,
            module_search_path: texts(self.module_search_path@),
            cache_directory: self.cache_directory@,
            enhanced_search_path: self.enhanced_search_path@,
        }
    }
}

/// The resolved paths that go with an interpreter, a module search path and
/// a cache directory.
pub open spec fn resolved_paths_of(
    platform: Platform,
    interpreter: CandidateView,
    module_search_path: Seq<Seq<char>>,
    cache_directory: Seq<char>,
    system_search_path: Seq<char>,
) -> ResolvedPathsView {
    ResolvedPathsView {
        context: interpreter.context,
        interpreter_executable: interpreter.location,
        module_search_path,
        cache_directory,
        enhanced_search_path: enhanced_search_path_of(
            platform,
            interpreter.directory,
            system_search_path,
        ),
    }
}

/// Puts the results of the single searches together.
pub fn resolve_paths(
    platform: Platform,
    interpreter: Candidate,
    module_search_path: Vec<String>,
    cache_directory: String,
    system_search_path: &str,
) -> (paths: ResolvedPaths)
    ensures
        paths@ == resolved_paths_of(
            platform,
            interpreter@,
            texts(module_search_path@),
            cache_directory@,
            system_search_path@,
        ),
{
    let enhanced_search_path = resolve_enhanced_search_path(
        platform,
        &interpreter.directory,
        system_search_path,
    );
    ResolvedPaths {
        context: interpreter.context,
        interpreter_executable: interpreter.location,
        module_search_path,
        cache_directory,
        enhanced_search_path,
    }
}

} // verus!
