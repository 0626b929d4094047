//! Universal game detection: recognising a game's engine from files in its
//! directory and its executable name, deriving a launch profile from it, and
//! turning a profile into a configuration for a number of instances.
//! Looking at the filesystem happens outside the library, which receives
//! what was found as `GameFacts`.

use vstd::prelude::*;
use crate::env_vars::{env_clone, env_insert, env_set, env_view};
use crate::text::{
    contains, ends_with, has_prefix, has_substring, has_suffix, lowercase, owned, starts_with,
    strings_clone, strings_view, to_lowercase,
};

verus! {

/// A failure while analysing a game.
#[derive(Debug)]
pub enum GameDetectionError {
    AnalysisFailed(String),
    Io(std::io::Error),
}

/// A game engine.
#[derive(Debug)]
pub enum GameEngine {
    Unity,
    UnrealEngine,
    Godot,
    GameMaker,
    Construct,
    Custom(String),
    Unknown,
}

impl Clone for GameEngine {
    fn clone(&self) -> (r: Self)
        ensures
            r == *self,
    {
        match self {
            GameEngine::Unity => GameEngine::Unity,
            GameEngine::UnrealEngine => GameEngine::UnrealEngine,
            GameEngine::Godot => GameEngine::Godot,
            GameEngine::GameMaker => GameEngine::GameMaker,
            GameEngine::Construct => GameEngine::Construct,
            GameEngine::Custom(s) => GameEngine::Custom(s.clone()),
            GameEngine::Unknown => GameEngine::Unknown,
        }
    }
}

/// How well a game supports running several copies at once.
#[derive(Debug, Clone, Copy, PartialEq, Eq, Structural)]
pub enum MultiInstanceSupport {
    Native,
    Configurable,
    RequiresWorkarounds,
    Unsupported,
}

/// Where each instance of a game runs.
#[derive(Debug, Clone, Copy, PartialEq, Eq, Structural)]
pub enum WorkingDirStrategy {
    /// The game's installation directory.
    GameDirectory,
    /// A directory of its own per instance.
    SeparateDirectories,
    /// A temporary directory.
    Temporary,
    /// The current working directory.
    Current,
}

/// How strongly instances are kept apart.
#[derive(Debug, Clone, Copy, PartialEq, Eq, Structural)]
pub enum InstanceSeparation {
    /// No separation needed (the game handles it).
    NoSeparation,
    /// Separate through environment variables only.
    Environment,
    /// Separate directories, configuration and caches.
    Full,
}

/// A launch profile derived for a game.
#[derive(Debug)]
pub struct GameProfile {
    /// File name of the executable.
    pub executable_pattern: String,
    /// Detected engine.
    pub engine: Option<GameEngine>,
    /// Ports the instances use.
    pub default_ports: Vec<u16>,
    /// Window layout name.
    pub default_layout: String,
    /// How well the game runs several times.
    pub multi_instance_support: MultiInstanceSupport,
    /// Arguments given to every instance.
    pub launch_args: Vec<String>,
    /// Environment given to every instance.
    pub environment_vars: Vec<(String, String)>,
    /// Where instances run.
    pub working_dir_strategy: WorkingDirStrategy,
}

/// The value of a profile, strings as characters.
pub struct GameProfileView {
    pub executable_pattern: Seq<char>,
    pub engine: Option<GameEngine>,
    pub default_ports: Seq<u16>,
    pub default_layout: Seq<char>,
    pub multi_instance_support: MultiInstanceSupport,
    pub launch_args: Seq<Seq<char>>,
    pub environment_vars: Seq<(Seq<char>, Seq<char>)>,
    pub working_dir_strategy: WorkingDirStrategy,
}

impl View for GameProfile {
    type V = GameProfileView;

    open spec fn view(&self) -> GameProfileView {
        GameProfileView {
            executable_pattern: self.executable_pattern@,
            engine: self.engine,
            default_ports: self.default_ports@,
            default_layout: self.default_layout@,
            multi_instance_support: self.multi_instance_support,
            launch_args: strings_view(self.launch_args@),
            environment_vars: env_view(self.environment_vars@),
            working_dir_strategy: self.working_dir_strategy,
        }
    }
}

/// A copy of a list of ports.
fn ports_clone(v: &Vec<u16>) -> (r: Vec<u16>)
    ensures
        r@ == v@,
{
    let mut r: Vec<u16> = Vec::new();
    let mut i: usize = 0;
    while i < v.len()
        invariant
            i <= v@.len(),
            r@ == v@.subrange(0, i as int),
        decreases v.len() - i,
    {
        r.push(v[i]);
        assert(r@ =~= v@.subrange(0, i + 1));
        i = i + 1;
    }
    assert(r@ =~= v@);
    r
}

impl Clone for GameProfile {
    fn clone(&self) -> (r: Self)
        ensures
            r@ == self@,
    {
        GameProfile {
            executable_pattern: self.executable_pattern.clone(),
            engine: match &self.engine {
                Some(e) => Some(e.clone()),
                None => None,
            },
            default_ports: ports_clone(&self.default_ports),
            default_layout: self.default_layout.clone(),
            multi_instance_support: self.multi_instance_support,
            launch_args: strings_clone(&self.launch_args),
            environment_vars: env_clone(&self.environment_vars),
            working_dir_strategy: self.working_dir_strategy,
        }
    }
}

/// One entry of the game's directory.
#[derive(Debug, Clone)]
pub struct DirEntryInfo {
    /// The entry's name (entries whose names are not valid UTF-8 are left out).
    pub name: String,
    /// Whether the entry is a directory.
    pub is_dir: bool,
}

/// What was found on disk about a game executable.
#[derive(Debug, Clone)]
pub struct GameFacts {
    /// The executable's file name, when it has one that is valid UTF-8.
    pub file_name: Option<String>,
    /// For each name of `engine_marker_files`, in order, whether an entry of
    /// that name exists in the game's directory (missing values count as
    /// absent).
    pub markers_present: Vec<bool>,
    /// The entries of the game's directory, or `None` when it could not be
    /// listed.
    pub dir_entries: Option<Vec<DirEntryInfo>>,
    /// Whether the executable starts with the Windows "MZ" signature.
    pub is_windows_binary: bool,
    /// The executable's size in bytes.
    pub file_size: u64,
}

/// Names whose presence in a game's directory marks an engine: Unity
/// (indices 0 to 4), Unreal Engine (5 to 9), Godot (10, 11) and GameMaker
/// (12 to 14).
pub open spec fn marker_names() -> Seq<Seq<char>> {
    seq![
        "UnityPlayer.dll"@, "UnityCrashHandler64.exe"@, "UnityCrashHandler32.exe"@, "Managed"@,
        "MonoBleedingEdge"@, "Engine"@, "Content"@, "Binaries"@, "Config"@, "Saved"@,
        "project.godot"@, ".godot"@, "data.win"@, "game.ios"@, "game.droid"@,
    ]
}

/// The names of `marker_names`, to be looked up in a game's directory.
pub fn engine_marker_files() -> (v: Vec<&'static str>)
    ensures
        v@.map_values(|s: &'static str| s@) == marker_names(),
{
    let v = vec![
        "UnityPlayer.dll", "UnityCrashHandler64.exe", "UnityCrashHandler32.exe", "Managed",
        "MonoBleedingEdge", "Engine", "Content", "Binaries", "Config", "Saved",
        "project.godot", ".godot", "data.win", "game.ios", "game.droid",
    ];
    assert(v@.map_values(|s: &'static str| s@) =~= marker_names());
    v
}

/// Marker `i` was found.
pub open spec fn marker_present(f: GameFacts, i: int) -> bool {
    0 <= i < f.markers_present@.len() && f.markers_present@[i]
}

/// Some marker with index in `lo..hi` was found.
pub open spec fn any_marker(f: GameFacts, lo: int, hi: int) -> bool {
    exists|i: int| lo <= i < hi && marker_present(f, i)
}

/// Directory-entry patterns: 0 is a Unity data folder (`*_Data`, a
/// directory), 1 an Unreal package (`*.pak`), 2 a Godot package (`*.pck`),
/// 3 a GameMaker audio group (`audiogroup*.dat`).
pub open spec fn entry_matches(e: DirEntryInfo, kind: int) -> bool {
    if kind == 0 {
        has_suffix(e.name@, "_Data"@) && e.is_dir
    } else if kind == 1 {
        has_suffix(e.name@, ".pak"@)
    } else if kind == 2 {
        has_suffix(e.name@, ".pck"@)
    } else {
        has_prefix(e.name@, "audiogroup"@) && has_suffix(e.name@, ".dat"@)
    }
}

/// Some listed entry matches pattern `kind`.
pub open spec fn any_entry(f: GameFacts, kind: int) -> bool {
    &&& f.dir_entries is Some
    &&& exists|i: int|
        0 <= i < f.dir_entries->0@.len() && entry_matches(#[trigger] f.dir_entries->0@[i], kind)
}

/// The engine that the facts point to, given the lower-cased executable
/// name: directory markers are checked for Unity, Unreal Engine, Godot and
/// GameMaker in that order; failing those, the name is searched for
/// "unity", then for "unreal", "ue4" or "ue5"; failing that too, the engine
/// is unknown.
pub open spec fn engine_for(f: GameFacts, lower_name: Seq<char>) -> GameEngine {
    if any_marker(f, 0, 5) || any_entry(f, 0) {
        GameEngine::Unity
    } else if any_marker(f, 5, 10) || any_entry(f, 1) {
        GameEngine::UnrealEngine
    } else if any_marker(f, 10, 12) || any_entry(f, 2) {
        GameEngine::Godot
    } else if any_marker(f, 12, 15) || any_entry(f, 3) {
        GameEngine::GameMaker
    } else if has_substring(lower_name, "unity"@) {
        GameEngine::Unity
    } else if has_substring(lower_name, "unreal"@) || has_substring(lower_name, "ue4"@) || has_substring(
        lower_name,
        "ue5"@,
    ) {
        GameEngine::UnrealEngine
    } else {
        GameEngine::Unknown
    }
}

/// The engine that the facts point to (see `engine_for`), the executable
/// name lower-cased with `str::to_lowercase` (an empty name when it has
/// none).
pub open spec fn detected_engine(f: GameFacts) -> GameEngine {
    engine_for(f, lowercase(match f.file_name {
        Some(n) => n@,
        None => ""@,
    }))
}

/// The multi-instance support assumed for an engine.
pub open spec fn engine_support(e: GameEngine) -> MultiInstanceSupport {
    match e {
        GameEngine::Godot => MultiInstanceSupport::Native,
        GameEngine::GameMaker => MultiInstanceSupport::RequiresWorkarounds,
        _ => MultiInstanceSupport::Configurable,
    }
}

/// The launch arguments used for an engine.
pub open spec fn engine_args(e: GameEngine) -> Seq<Seq<char>> {
    match e {
        GameEngine::Unity => seq!["-force-opengl"@, "-screen-fullscreen"@, "0"@],
        GameEngine::UnrealEngine => seq!["-windowed"@, "-ResX=800"@, "-ResY=600"@],
        GameEngine::Godot => seq!["--windowed"@],
        _ => Seq::empty(),
    }
}

/// The environment used for an engine.
pub open spec fn engine_env(e: GameEngine) -> Seq<(Seq<char>, Seq<char>)> {
    match e {
        GameEngine::Unity => seq![("UNITY_MIXED_CALLSTACK"@, "1"@)],
        _ => Seq::empty(),
    }
}

/// The working-directory strategy used for an engine.
pub open spec fn engine_strategy(e: GameEngine) -> WorkingDirStrategy {
    match e {
        GameEngine::Godot => WorkingDirStrategy::GameDirectory,
        _ => WorkingDirStrategy::SeparateDirectories,
    }
}

/// Executables larger than this many whole mebibytes count as large games.
pub open spec fn large_game_mib() -> int {
    100
}

/// The environment of a profile after the executable's traits are added:
/// Windows executables get `WINEDEBUG=-all`, executables of more than 100
/// whole MiB get `HYDRA_LARGE_GAME=1`.
pub open spec fn analysed_env(e: GameEngine, f: GameFacts) -> Seq<(Seq<char>, Seq<char>)> {
    let env0 = engine_env(e);
    let env1 = if f.is_windows_binary { env_set(env0, "WINEDEBUG"@, "-all"@) } else { env0 };
    if (f.file_size as int) / 1048576 > large_game_mib() {
        env_set(env1, "HYDRA_LARGE_GAME"@, "1"@)
    } else {
        env1
    }
}

/// The profile derived from the facts about an executable: ports 7777 to
/// 7780, horizontal layout, and the engine's support, arguments,
/// environment and strategy, with a Windows executable always run in
/// separate directories.
pub open spec fn detected_profile(f: GameFacts) -> GameProfileView {
    let e = detected_engine(f);
    GameProfileView {
        executable_pattern: match f.file_name {
            Some(n) => n@,
            None => "unknown"@,
        },
        engine: Some(e),
        default_ports: seq![7777u16, 7778u16, 7779u16, 7780u16],
        default_layout: "horizontal"@,
        multi_instance_support: engine_support(e),
        launch_args: engine_args(e),
        environment_vars: analysed_env(e, f),
        working_dir_strategy: if f.is_windows_binary {
            WorkingDirStrategy::SeparateDirectories
        } else {
            engine_strategy(e)
        },
    }
}

/// Whether an entry matches pattern `kind` (see `entry_matches`).
fn entry_matches_kind(e: &DirEntryInfo, kind: u8) -> (b: bool)
    requires
        kind < 4,
    ensures
        b == entry_matches(*e, kind as int),
{
    let name = e.name.as_str();
    if kind == 0 {
        ends_with(name, "_Data") && e.is_dir
    } else if kind == 1 {
        ends_with(name, ".pak")
    } else if kind == 2 {
        ends_with(name, ".pck")
    } else {
        starts_with(name, "audiogroup") && ends_with(name, ".dat")
    }
}

/// Whether some listed entry matches pattern `kind`.
fn any_entry_matches(f: &GameFacts, kind: u8) -> (b: bool)
    requires
        kind < 4,
    ensures
        b == any_entry(*f, kind as int),
{
    match &f.dir_entries {
        Some(es) => {
            let mut i: usize = 0;
            while i < es.len()
                invariant
                    kind < 4,
                    f.dir_entries == Some(*es),
                    i <= es@.len(),
                    forall|k: int| 0 <= k < i ==> !entry_matches(#[trigger] es@[k], kind as int),
                decreases es.len() - i,
            {
                if entry_matches_kind(&es[i], kind) {
                    assert(entry_matches(f.dir_entries->0@[i as int], kind as int));
                    return true;
                }
                i = i + 1;
            }
            false
        },
        None => false,
    }
}

/// Whether some marker with index in `lo..hi` was found.
fn any_marker_in(f: &GameFacts, lo: usize, hi: usize) -> (b: bool)
    ensures
        b == any_marker(*f, lo as int, hi as int),
{
    let mut i = lo;
    while i < hi
        invariant
            lo <= i,
            forall|k: int| lo <= k < i ==> !marker_present(*f, k),
        decreases hi - i,
    {
        if i < f.markers_present.len() && f.markers_present[i] {
            assert(lo <= i < hi && marker_present(*f, i as int));
            return true;
        }
        i = i + 1;
    }
    false
}

/// The engine that the facts point to, given the lower-cased executable
/// name (see `engine_for`).
pub fn engine_from(f: &GameFacts, lower_name: &str) -> (e: GameEngine)
    ensures
        e == engine_for(*f, lower_name@),
{
    if any_marker_in(f, 0, 5) || any_entry_matches(f, 0) {
        return GameEngine::Unity;
    }
    if any_marker_in(f, 5, 10) || any_entry_matches(f, 1) {
        return GameEngine::UnrealEngine;
    }
    if any_marker_in(f, 10, 12) || any_entry_matches(f, 2) {
        return GameEngine::Godot;
    }
    if any_marker_in(f, 12, 15) || any_entry_matches(f, 3) {
        return GameEngine::GameMaker;
    }
    if contains(lower_name, "unity") {
        GameEngine::Unity
    } else if contains(lower_name, "unreal") || contains(lower_name, "ue4") || contains(lower_name, "ue5") {
        GameEngine::UnrealEngine
    } else {
        GameEngine::Unknown
    }
}

/// The engine that the facts point to (see `detected_engine`).
pub fn detect_engine(f: &GameFacts) -> (e: GameEngine)
    ensures
        e == detected_engine(*f),
{
    let name = match &f.file_name {
        Some(n) => to_lowercase(n.as_str()),
        None => to_lowercase(""),
    };
    engine_from(f, name.as_str())
}

/// The launch arguments of a profile after configuring it for an engine:
/// Unity, Unreal Engine and Godot replace them with their own, every other
/// engine keeps them.
pub open spec fn args_for_engine(e: GameEngine, args: Seq<Seq<char>>) -> Seq<Seq<char>> {
    match e {
        GameEngine::Unity => engine_args(e),
        GameEngine::UnrealEngine => engine_args(e),
        GameEngine::Godot => engine_args(e),
        _ => args,
    }
}

/// The environment of a profile after configuring it for an engine: Unity
/// sets `UNITY_MIXED_CALLSTACK=1`, every other engine keeps it.
pub open spec fn env_for_engine(e: GameEngine, env: Seq<(Seq<char>, Seq<char>)>) -> Seq<(Seq<char>, Seq<char>)> {
    match e {
        GameEngine::Unity => env_set(env, "UNITY_MIXED_CALLSTACK"@, "1"@),
        _ => env,
    }
}

/// The engine by which a profile is configured: its own, or `Unknown` when
/// it has none (configured like every engine without settings of its own).
pub open spec fn configured_engine(e: Option<GameEngine>) -> GameEngine {
    match e {
        Some(x) => x,
        None => GameEngine::Unknown,
    }
}

/// Sets the engine-dependent parts of a profile by its engine: support and
/// strategy, the arguments (see `args_for_engine`) and the environment (see
/// `env_for_engine`). Every other part is kept.
pub fn configure_for_engine(profile: &mut GameProfile)
    ensures
        final(profile).executable_pattern == old(profile).executable_pattern,
        final(profile).engine == old(profile).engine,
        final(profile).default_ports == old(profile).default_ports,
        final(profile).default_layout == old(profile).default_layout,
        final(profile).multi_instance_support == engine_support(configured_engine(old(profile).engine)),
        strings_view(final(profile).launch_args@) == args_for_engine(
            configured_engine(old(profile).engine),
            strings_view(old(profile).launch_args@),
        ),
        env_view(final(profile).environment_vars@) == env_for_engine(
            configured_engine(old(profile).engine),
            env_view(old(profile).environment_vars@),
        ),
        final(profile).working_dir_strategy == engine_strategy(configured_engine(old(profile).engine)),
{
    let e = match &profile.engine {
        Some(x) => x.clone(),
        None => GameEngine::Unknown,
    };
    let e = &e;
    match e {
        GameEngine::Unity => {
            profile.multi_instance_support = MultiInstanceSupport::Configurable;
            profile.launch_args = vec![owned("-force-opengl"), owned("-screen-fullscreen"), owned("0")];
            env_insert(&mut profile.environment_vars, owned("UNITY_MIXED_CALLSTACK"), owned("1"));
            profile.working_dir_strategy = WorkingDirStrategy::SeparateDirectories;
            assert(strings_view(profile.launch_args@) =~= engine_args(*e));
        },
        GameEngine::UnrealEngine => {
            profile.multi_instance_support = MultiInstanceSupport::Configurable;
            profile.launch_args = vec![owned("-windowed"), owned("-ResX=800"), owned("-ResY=600")];
            profile.working_dir_strategy = WorkingDirStrategy::SeparateDirectories;
            assert(strings_view(profile.launch_args@) =~= engine_args(*e));
        },
        GameEngine::Godot => {
            profile.multi_instance_support = MultiInstanceSupport::Native;
            profile.launch_args = vec![owned("--windowed")];
            profile.working_dir_strategy = WorkingDirStrategy::GameDirectory;
            assert(strings_view(profile.launch_args@) =~= engine_args(*e));
        },
        GameEngine::GameMaker => {
            profile.multi_instance_support = MultiInstanceSupport::RequiresWorkarounds;
            profile.working_dir_strategy = WorkingDirStrategy::SeparateDirectories;
        },
        _ => {
            profile.multi_instance_support = MultiInstanceSupport::Configurable;
            profile.working_dir_strategy = WorkingDirStrategy::SeparateDirectories;
        },
    }
}

/// Derives the launch profile of an executable from what was found about
/// it (see `detected_profile`).
pub fn profile_from_facts(f: &GameFacts) -> (p: GameProfile)
    ensures
        p@ == detected_profile(*f),
{
    let e = detect_engine(f);
    let mut profile = GameProfile {
        executable_pattern: match &f.file_name {
            Some(n) => n.clone(),
            None => owned("unknown"),
        },
        engine: Some(e.clone()),
        default_ports: vec![7777u16, 7778u16, 7779u16, 7780u16],
        default_layout: owned("horizontal"),
        multi_instance_support: MultiInstanceSupport::Configurable,
        launch_args: Vec::new(),
        environment_vars: Vec::new(),
        working_dir_strategy: WorkingDirStrategy::SeparateDirectories,
    };
    assert(strings_view(profile.launch_args@) =~= Seq::<Seq<char>>::empty());
    assert(env_view(profile.environment_vars@) =~= Seq::<(Seq<char>, Seq<char>)>::empty());
    configure_for_engine(&mut profile);
    proof {
        assert(strings_view(profile.launch_args@) =~= engine_args(e));
        assert(env_view(profile.environment_vars@) =~= engine_env(e));
    }
    if f.is_windows_binary {
        env_insert(&mut profile.environment_vars, owned("WINEDEBUG"), owned("-all"));
        profile.working_dir_strategy = WorkingDirStrategy::SeparateDirectories;
    }
    let size_mb = f.file_size / (1024 * 1024);
    if size_mb > 100 {
        env_insert(&mut profile.environment_vars, owned("HYDRA_LARGE_GAME"), owned("1"));
    }
    assert(profile.default_ports@ =~= seq![7777u16, 7778u16, 7779u16, 7780u16]);
    assert(profile@ =~= detected_profile(*f));
    profile
}

/// The cached profiles, by executable path.
pub open spec fn cache_view(c: Seq<(Vec<Vec<u8>>, GameProfile)>) -> Seq<(Seq<Seq<u8>>, GameProfileView)> {
    c.map_values(|e: (Vec<Vec<u8>>, GameProfile)| (path_view(e.0@), e.1@))
}

/// A path given as its components, each as bytes, as values.
pub open spec fn path_view(p: Seq<Vec<u8>>) -> Seq<Seq<u8>> {
    p.map_values(|c: Vec<u8>| c@)
}

/// Whether two byte strings are equal.
fn bytes_eq(a: &Vec<u8>, b: &Vec<u8>) -> (r: bool)
    ensures
        r == (a@ == b@),
{
    if a.len() != b.len() {
        return false;
    }
    let mut i: usize = 0;
    while i < a.len()
        invariant
            a@.len() == b@.len(),
            i <= a@.len(),
            forall|k: int| 0 <= k < i ==> a@[k] == b@[k],
        decreases a.len() - i,
    {
        if a[i] != b[i] {
            return false;
        }
        i = i + 1;
    }
    assert(a@ =~= b@);
    true
}

/// Whether two paths have the same components.
fn path_eq(a: &Vec<Vec<u8>>, b: &Vec<Vec<u8>>) -> (r: bool)
    ensures
        r == (path_view(a@) == path_view(b@)),
{
    if a.len() != b.len() {
        assert(path_view(a@).len() != path_view(b@).len());
        return false;
    }
    let mut i: usize = 0;
    while i < a.len()
        invariant
            a@.len() == b@.len(),
            i <= a@.len(),
            forall|k: int| 0 <= k < i ==> a@[k]@ == b@[k]@,
        decreases a.len() - i,
    {
        if !bytes_eq(&a[i], &b[i]) {
            assert(path_view(a@)[i as int] != path_view(b@)[i as int]);
            return false;
        }
        i = i + 1;
    }
    assert(path_view(a@) =~= path_view(b@));
    true
}

/// A copy of a path's components.
fn path_clone(a: &Vec<Vec<u8>>) -> (r: Vec<Vec<u8>>)
    ensures
        path_view(r@) == path_view(a@),
{
    let mut r: Vec<Vec<u8>> = Vec::new();
    let mut i: usize = 0;
    while i < a.len()
        invariant
            i <= a@.len(),
            r@.len() == i,
            forall|k: int| 0 <= k < i ==> r@[k]@ == a@[k]@,
        decreases a.len() - i,
    {
        r.push(a[i].clone());
        i = i + 1;
    }
    assert(path_view(r@) =~= path_view(a@));
    r
}

/// The first cached profile for `path`, if any.
pub open spec fn cache_lookup(c: Seq<(Seq<Seq<u8>>, GameProfileView)>, path: Seq<Seq<u8>>) -> Option<GameProfileView>
    decreases c.len(),
{
    if c.len() == 0 {
        None
    } else if c[0].0 == path {
        Some(c[0].1)
    } else {
        cache_lookup(c.drop_first(), path)
    }
}

/// Detects games and remembers the profile derived for each executable.
/// Executables are named by their path's components, each as the bytes of
/// the operating system's string, so that two paths are the same exactly
/// when `PathBuf` equality holds of them.
pub struct GameDetector {
    profile_cache: Vec<(Vec<Vec<u8>>, GameProfile)>,
}

impl GameDetector {
    /// The cached profiles, by executable path.
    pub closed spec fn cache(&self) -> Seq<(Seq<Seq<u8>>, GameProfileView)> {
        cache_view(self.profile_cache@)
    }

    /// A detector with nothing cached.
    pub fn new() -> (d: Self)
        ensures
            d.cache().len() == 0,
    {
        let d = GameDetector { profile_cache: Vec::new() };
        assert(d.cache() =~= Seq::empty());
        d
    }

    /// The profile cached for `executable_path`, if any.
    pub fn cached_profile(&self, executable_path: &Vec<Vec<u8>>) -> (r: Option<GameProfile>)
        ensures
            match r {
                Some(p) => cache_lookup(self.cache(), path_view(executable_path@)) == Some(p@),
                None => cache_lookup(self.cache(), path_view(executable_path@)) is None,
            },
    {
        let mut i: usize = 0;
        assert(self.cache().subrange(0, self.cache().len() as int) =~= self.cache());
        while i < self.profile_cache.len()
            invariant
                i <= self.profile_cache@.len(),
                cache_lookup(self.cache(), path_view(executable_path@)) == cache_lookup(
                    self.cache().subrange(i as int, self.cache().len() as int),
                    path_view(executable_path@),
                ),
            decreases self.profile_cache.len() - i,
        {
            let ghost rest = self.cache().subrange(i as int, self.cache().len() as int);
            proof {
                assert(rest.drop_first() =~= self.cache().subrange(i + 1, self.cache().len() as int));
            }
            if path_eq(&self.profile_cache[i].0, executable_path) {
                return Some(self.profile_cache[i].1.clone());
            }
            i = i + 1;
        }
        None
    }

    /// The profile of the executable at `executable_path`: the cached one
    /// when there is one; otherwise the one derived from `facts`, what was
    /// found on disk about the executable, which is then cached. When those
    /// could not be read, their error is returned and nothing is cached.
    pub fn detect_game(
        &mut self,
        executable_path: &Vec<Vec<u8>>,
        facts: Result<GameFacts, GameDetectionError>,
    ) -> (r: Result<GameProfile, GameDetectionError>)
        ensures
            (profile_result_view(r), final(self).cache()) == detection_step(
                old(self).cache(),
                path_view(executable_path@),
                facts,
            ),
    {
        if let Some(p) = self.cached_profile(executable_path) {
            return Ok(p);
        }
        match facts {
            Err(e) => Err(e),
            Ok(f) => {
                let profile = profile_from_facts(&f);
                let ghost before = self.profile_cache@;
                self.profile_cache.push((path_clone(executable_path), profile.clone()));
                assert(self.cache() =~= cache_view(before).push((path_view(executable_path@), profile@)));
                Ok(profile)
            },
        }
    }
}

/// A detection's result, the profile taken by its value.
pub open spec fn profile_result_view(r: Result<GameProfile, GameDetectionError>) -> Result<
    GameProfileView,
    GameDetectionError,
> {
    match r {
        Ok(p) => Ok(p@),
        Err(e) => Err(e),
    }
}

/// One detection of the executable at `path`, given the cache before it and
/// what was found on disk: its result, and the cache after it.
pub open spec fn detection_step(
    cache: Seq<(Seq<Seq<u8>>, GameProfileView)>,
    path: Seq<Seq<u8>>,
    facts: Result<GameFacts, GameDetectionError>,
) -> (Result<GameProfileView, GameDetectionError>, Seq<(Seq<Seq<u8>>, GameProfileView)>) {
    match cache_lookup(cache, path) {
        Some(c) => (Ok(c), cache),
        None => match facts {
            Ok(f) => (Ok(detected_profile(f)), cache.push((path, detected_profile(f)))),
            Err(e) => (Err(e), cache),
        },
    }
}

/// The configuration generated for a game and a number of instances.
#[derive(Debug)]
pub struct GameConfiguration {
    pub ports: Vec<u16>,
    pub layout: String,
    pub launch_args: Vec<String>,
    pub environment_vars: Vec<(String, String)>,
    pub working_dir_strategy: WorkingDirStrategy,
    pub instance_separation: InstanceSeparation,
}

/// The value of a configuration, strings as characters.
pub struct GameConfigurationView {
    pub ports: Seq<u16>,
    pub layout: Seq<char>,
    pub launch_args: Seq<Seq<char>>,
    pub environment_vars: Seq<(Seq<char>, Seq<char>)>,
    pub working_dir_strategy: WorkingDirStrategy,
    pub instance_separation: InstanceSeparation,
}

impl View for GameConfiguration {
    type V = GameConfigurationView;

    open spec fn view(&self) -> GameConfigurationView {
        GameConfigurationView {
            ports: self.ports@,
            layout: self.layout@,
            launch_args: strings_view(self.launch_args@),
            environment_vars: env_view(self.environment_vars@),
            working_dir_strategy: self.working_dir_strategy,
            instance_separation: self.instance_separation,
        }
    }
}

impl Clone for GameConfiguration {
    fn clone(&self) -> (r: Self)
        ensures
            r@ == self@,
    {
        GameConfiguration {
            ports: ports_clone(&self.ports),
            layout: self.layout.clone(),
            launch_args: strings_clone(&self.launch_args),
            environment_vars: env_clone(&self.environment_vars),
            working_dir_strategy: self.working_dir_strategy,
            instance_separation: self.instance_separation,
        }
    }
}

/// The separation used for a level of multi-instance support.
pub open spec fn separation_for(s: MultiInstanceSupport) -> InstanceSeparation {
    match s {
        MultiInstanceSupport::Native => InstanceSeparation::NoSeparation,
        MultiInstanceSupport::Configurable => InstanceSeparation::Environment,
        MultiInstanceSupport::RequiresWorkarounds => InstanceSeparation::Full,
        MultiInstanceSupport::Unsupported => InstanceSeparation::Full,
    }
}

/// The port that extra ports count up from: the last given one, or 7777.
pub open spec fn port_base(p: Seq<u16>) -> int {
    if p.len() == 0 { 7777 } else { p.last() as int }
}

/// Extending `p` to `n` ports stays within the 16-bit port range.
pub open spec fn ports_extension_fits(p: Seq<u16>, n: nat) -> bool {
    p.len() >= n || port_base(p) + (n - p.len()) <= u16::MAX
}

/// The ports of `n` instances: the first `n` of `p`, continued when `p` is
/// shorter by consecutive ports after its last one (after 7777 when `p` is
/// empty).
pub open spec fn recommended_ports(p: Seq<u16>, n: nat) -> Seq<u16> {
    if p.len() >= n {
        p.take(n as int)
    } else {
        p + Seq::new((n - p.len()) as nat, |j: int| (port_base(p) + j + 1) as u16)
    }
}

/// The configuration recommended for `n` instances of a game with profile
/// `p`.
pub open spec fn recommended_config(p: GameProfileView, n: nat) -> GameConfigurationView {
    GameConfigurationView {
        ports: recommended_ports(p.default_ports, n),
        layout: p.default_layout,
        launch_args: p.launch_args,
        environment_vars: p.environment_vars,
        working_dir_strategy: p.working_dir_strategy,
        instance_separation: separation_for(p.multi_instance_support),
    }
}

impl GameDetector {
    /// The configuration for `num_instances` instances of a game (see
    /// `recommended_config`). Extending the ports past 65535 is outside
    /// what is accepted.
    pub fn get_recommended_config(&self, profile: &GameProfile, num_instances: usize) -> (c: GameConfiguration)
        requires
            ports_extension_fits(profile.default_ports@, num_instances as nat),
        ensures
            c@ == recommended_config(profile@, num_instances as nat),
    {
        let ghost p = profile.default_ports@;
        let ghost base = port_base(p);
        let mut ports = ports_clone(&profile.default_ports);
        while ports.len() < num_instances
            invariant
                p == profile.default_ports@,
                base == port_base(p),
                ports_extension_fits(p, num_instances as nat),
                p.len() < num_instances ==> p.len() <= ports@.len() <= num_instances,
                p.len() < num_instances ==> ports@ == p + Seq::new(
                    (ports@.len() - p.len()) as nat,
                    |j: int| (base + j + 1) as u16,
                ),
                p.len() >= num_instances ==> ports@ == p,
            decreases num_instances - ports.len(),
        {
            let next: u16 = if ports.len() == 0 {
                7778
            } else {
                ports[ports.len() - 1] + 1
            };
            let ghost before = ports@;
            ports.push(next);
            proof {
                assert(next == base + (before.len() - p.len()) + 1);
                assert(ports@ =~= p + Seq::new(
                    (ports@.len() - p.len()) as nat,
                    |j: int| (base + j + 1) as u16,
                ));
            }
        }
        let mut taken: Vec<u16> = Vec::new();
        let mut i: usize = 0;
        while i < num_instances
            invariant
                ports@.len() >= num_instances,
                i <= num_instances,
                taken@ == ports@.take(i as int),
            decreases num_instances - i,
        {
            taken.push(ports[i]);
            assert(taken@ =~= ports@.take(i + 1));
            i = i + 1;
        }
        let c = GameConfiguration {
            ports: taken,
            layout: profile.default_layout.clone(),
            launch_args: strings_clone(&profile.launch_args),
            environment_vars: env_clone(&profile.environment_vars),
            working_dir_strategy: profile.working_dir_strategy,
            instance_separation: match profile.multi_instance_support {
                MultiInstanceSupport::Native => InstanceSeparation::NoSeparation,
                MultiInstanceSupport::Configurable => InstanceSeparation::Environment,
                MultiInstanceSupport::RequiresWorkarounds => InstanceSeparation::Full,
                MultiInstanceSupport::Unsupported => InstanceSeparation::Full,
            },
        };
        proof {
            assert(ports@.take(num_instances as int) =~= recommended_ports(p, num_instances as nat));
        }
        c
    }
}

impl Default for GameDetector {
    /// A detector with nothing cached.
    fn default() -> (d: Self)
        ensures
            d.cache().len() == 0,
    {
        GameDetector::new()
    }
}

proof fn lemma_lookup_after_push(
    c: Seq<(Seq<Seq<u8>>, GameProfileView)>,
    path: Seq<Seq<u8>>,
    p: GameProfileView,
)
    requires
        cache_lookup(c, path) is None,
    ensures
        cache_lookup(c.push((path, p)), path) == Some(p),
    decreases c.len(),
{
    if c.len() > 0 {
        assert(c.push((path, p)).drop_first() =~= c.drop_first().push((path, p)));
        lemma_lookup_after_push(c.drop_first(), path, p);
    }
}

proof fn lemma_lookup_kept_after_push(
    c: Seq<(Seq<Seq<u8>>, GameProfileView)>,
    path: Seq<Seq<u8>>,
    other: Seq<Seq<u8>>,
    p: GameProfileView,
)
    requires
        cache_lookup(c, path) is Some,
    ensures
        cache_lookup(c.push((other, p)), path) == cache_lookup(c, path),
    decreases c.len(),
{
    if c[0].0 != path {
        assert(c.push((other, p)).drop_first() =~= c.drop_first().push((other, p)));
        lemma_lookup_kept_after_push(c.drop_first(), path, other, p);
    }
}

/// Once a game has been detected, detecting the same executable again
/// gives the same profile and changes nothing, whatever is then found on
/// disk: the cache answers for it.
pub proof fn detection_is_remembered(
    cache: Seq<(Seq<Seq<u8>>, GameProfileView)>,
    path: Seq<Seq<u8>>,
    facts: Result<GameFacts, GameDetectionError>,
    later: Result<GameFacts, GameDetectionError>,
)
    requires
        detection_step(cache, path, facts).0 is Ok,
    ensures
        ({
            let (first, after) = detection_step(cache, path, facts);
            detection_step(after, path, later) == (first, after)
        }),
{
    if cache_lookup(cache, path) is None {
        lemma_lookup_after_push(cache, path, detected_profile(facts->Ok_0));
    }
}

/// A detection that fails, because what is on disk could not be read,
/// remembers nothing: a later detection of the same executable derives its
/// profile from what is found then.
pub proof fn failed_detection_is_forgotten(
    cache: Seq<(Seq<Seq<u8>>, GameProfileView)>,
    path: Seq<Seq<u8>>,
    e: GameDetectionError,
    later: GameFacts,
)
    requires
        cache_lookup(cache, path) is None,
    ensures
        detection_step(cache, path, Err(e)) == (Err::<GameProfileView, GameDetectionError>(e), cache),
        detection_step(detection_step(cache, path, Err(e)).1, path, Ok(later)).0 == Ok::<
            GameProfileView,
            GameDetectionError,
        >(detected_profile(later)),
{
}

/// Detecting another executable, successfully or not, does not change what
/// is remembered for this one.
pub proof fn detection_keeps_other_games(
    cache: Seq<(Seq<Seq<u8>>, GameProfileView)>,
    path: Seq<Seq<u8>>,
    other: Seq<Seq<u8>>,
    facts: Result<GameFacts, GameDetectionError>,
)
    requires
        cache_lookup(cache, path) is Some,
    ensures
        cache_lookup(detection_step(cache, other, facts).1, path) == cache_lookup(cache, path),
{
    if cache_lookup(cache, other) is None && facts is Ok {
        lemma_lookup_kept_after_push(cache, path, other, detected_profile(facts->Ok_0));
    }
}

/// The recommended ports number exactly the instances, begin with the
/// profile's own ports, and continue one by one after the last of them.
pub proof fn recommended_ports_shape(p: Seq<u16>, n: nat)
    requires
        ports_extension_fits(p, n),
    ensures
        recommended_ports(p, n).len() == n,
        forall|i: int| 0 <= i < n && i < p.len() ==> recommended_ports(p, n)[i] == p[i],
        forall|i: int| p.len() <= i < n ==> recommended_ports(p, n)[i] == port_base(p) + (i - p.len()) + 1,
{
}

/// The names of the files and folders that mark a Unity game.
pub open spec fn is_unity_marker_name(s: Seq<char>) -> bool {
    ||| s == "UnityPlayer.dll"@
    ||| s == "UnityCrashHandler64.exe"@
    ||| s == "UnityCrashHandler32.exe"@
    ||| s == "Managed"@
    ||| s == "MonoBleedingEdge"@
}

/// The names of the files that mark a Godot game.
pub open spec fn is_godot_marker_name(s: Seq<char>) -> bool {
    s == "project.godot"@ || s == ".godot"@
}

/// The names of the files that mark a GameMaker game.
pub open spec fn is_gamemaker_marker_name(s: Seq<char>) -> bool {
    s == "data.win"@ || s == "game.ios"@ || s == "game.droid"@
}

/// The names of the files and folders that mark an Unreal Engine game.
pub open spec fn is_unreal_marker_name(s: Seq<char>) -> bool {
    ||| s == "Engine"@
    ||| s == "Content"@
    ||| s == "Binaries"@
    ||| s == "Config"@
    ||| s == "Saved"@
}

/// Of the marker names, the first five are Unity's, the next five Unreal
/// Engine's, the next two Godot's and the last three GameMaker's.
proof fn lemma_marker_kinds(j: int)
    requires
        0 <= j < marker_names().len(),
    ensures
        is_unity_marker_name(marker_names()[j]) <==> j < 5,
        is_unreal_marker_name(marker_names()[j]) <==> 5 <= j < 10,
        is_godot_marker_name(marker_names()[j]) <==> 10 <= j < 12,
        is_gamemaker_marker_name(marker_names()[j]) <==> 12 <= j < 15,
{

    reveal_strlit("UnityPlayer.dll");
    reveal_strlit("UnityCrashHandler64.exe");
    reveal_strlit("UnityCrashHandler32.exe");
    reveal_strlit("Managed");
    reveal_strlit("MonoBleedingEdge");
    reveal_strlit("Engine");
    reveal_strlit("Content");
    reveal_strlit("Binaries");
    reveal_strlit("Config");
    reveal_strlit("Saved");
    reveal_strlit("project.godot");
    reveal_strlit(".godot");
    reveal_strlit("data.win");
    reveal_strlit("game.ios");
    reveal_strlit("game.droid");
    assert("UnityPlayer.dll"@.len() == 15);
    assert("UnityCrashHandler64.exe"@.len() == 23);
    assert("UnityCrashHandler32.exe"@.len() == 23);
    assert("Managed"@.len() == 7);
    assert("MonoBleedingEdge"@.len() == 16);
    assert("Engine"@.len() == 6);
    assert("Content"@.len() == 7);
    assert("Binaries"@.len() == 8);
    assert("Config"@.len() == 6);
    assert("Saved"@.len() == 5);
    assert("project.godot"@.len() == 13);
    assert(".godot"@.len() == 6);
    assert("data.win"@.len() == 8);
    assert("game.ios"@.len() == 8);
    assert("game.droid"@.len() == 10);
    let s = marker_names()[j];
    if j == 0 {
        assert(s == "UnityPlayer.dll"@);
    } else if j == 1 {
        assert(s == "UnityCrashHandler64.exe"@);
    } else if j == 2 {
        assert(s == "UnityCrashHandler32.exe"@);
    } else if j == 3 {
        assert(s == "Managed"@);
        assert(s[0] != "Content"@[0]);
    } else if j == 4 {
        assert(s == "MonoBleedingEdge"@);
    } else if j == 5 {
        assert(s == "Engine"@);
        assert(s[0] != ".godot"@[0]);
    } else if j == 6 {
        assert(s == "Content"@);
        assert(s[0] != "Managed"@[0]);
    } else if j == 7 {
        assert(s == "Binaries"@);
        assert(s[0] != "data.win"@[0] && s[0] != "game.ios"@[0]);
    } else if j == 8 {
        assert(s == "Config"@);
        assert(s[0] != ".godot"@[0]);
    } else if j == 9 {
        assert(s == "Saved"@);
    } else if j == 10 {
        assert(s == "project.godot"@);
    } else if j == 11 {
        assert(s == ".godot"@);
        assert(s[0] != "Engine"@[0] && s[0] != "Config"@[0]);
    } else if j == 12 {
        assert(s == "data.win"@);
        assert(s[0] != "Binaries"@[0]);
    } else if j == 13 {
        assert(s == "game.ios"@);
        assert(s[0] != "Binaries"@[0]);
    } else {
        assert(s == "game.droid"@);
    }
}

/// A game directory holding a Unity marker is a Unity game, whatever else
/// it holds and whatever the executable is called.
pub proof fn unity_markers_mean_unity(f: GameFacts, lower_name: Seq<char>, i: int)
    requires
        0 <= i < marker_names().len(),
        marker_present(f, i),
        is_unity_marker_name(marker_names()[i]),
    ensures
        engine_for(f, lower_name) == GameEngine::Unity,
{
    lemma_marker_kinds(i);
}

/// A game directory holding an Unreal Engine marker (such as the `Engine`
/// folder of every packaged Unreal game), and neither a Unity marker nor a
/// Unity data folder, is an Unreal Engine game, whatever the executable is
/// called.
pub proof fn unreal_markers_mean_unreal(f: GameFacts, lower_name: Seq<char>, i: int)
    requires
        0 <= i < marker_names().len(),
        marker_present(f, i),
        is_unreal_marker_name(marker_names()[i]),
        forall|j: int|
            0 <= j < marker_names().len() && marker_present(f, j) ==> !is_unity_marker_name(
                #[trigger] marker_names()[j],
            ),
        f.dir_entries matches Some(es) ==> forall|k: int|
            0 <= k < es@.len() ==> !(has_suffix((#[trigger] es@[k]).name@, "_Data"@) && es@[k].is_dir),
    ensures
        engine_for(f, lower_name) == GameEngine::UnrealEngine,
{
    lemma_marker_kinds(i);
    assert(!any_marker(f, 0, 5)) by {
        assert forall|j: int| 0 <= j < 5 implies !marker_present(f, j) by {
            lemma_marker_kinds(j);
        }
    }
    assert(!any_entry(f, 0));
    assert(any_marker(f, 5, 10));
}

/// A game directory holding a Godot marker, and no Unity or Unreal Engine
/// marker, Unity data folder or Unreal package, is a Godot game, whatever
/// the executable is called.
pub proof fn godot_markers_mean_godot(f: GameFacts, lower_name: Seq<char>, i: int)
    requires
        0 <= i < marker_names().len(),
        marker_present(f, i),
        is_godot_marker_name(marker_names()[i]),
        forall|j: int|
            0 <= j < marker_names().len() && marker_present(f, j) ==> !is_unity_marker_name(
                #[trigger] marker_names()[j],
            ) && !is_unreal_marker_name(marker_names()[j]),
        f.dir_entries matches Some(es) ==> forall|k: int|
            0 <= k < es@.len() ==> !(has_suffix((#[trigger] es@[k]).name@, "_Data"@) && es@[k].is_dir)
                && !has_suffix(es@[k].name@, ".pak"@),
    ensures
        engine_for(f, lower_name) == GameEngine::Godot,
{
    lemma_marker_kinds(i);
    assert forall|j: int| 0 <= j < 10 implies !marker_present(f, j) by {
        lemma_marker_kinds(j);
    }
    assert(!any_marker(f, 0, 5));
    assert(!any_marker(f, 5, 10));
    assert(!any_entry(f, 0));
    assert(!any_entry(f, 1));
    assert(any_marker(f, 10, 12));
}

/// A game directory holding a GameMaker marker, and no Unity, Unreal Engine
/// or Godot marker, Unity data folder, Unreal package or Godot package, is a
/// GameMaker game, whatever the executable is called.
pub proof fn gamemaker_markers_mean_gamemaker(f: GameFacts, lower_name: Seq<char>, i: int)
    requires
        0 <= i < marker_names().len(),
        marker_present(f, i),
        is_gamemaker_marker_name(marker_names()[i]),
        forall|j: int|
            0 <= j < marker_names().len() && marker_present(f, j) ==> is_gamemaker_marker_name(
                #[trigger] marker_names()[j],
            ),
        f.dir_entries matches Some(es) ==> forall|k: int|
            0 <= k < es@.len() ==> !(has_suffix((#[trigger] es@[k]).name@, "_Data"@) && es@[k].is_dir)
                && !has_suffix(es@[k].name@, ".pak"@) && !has_suffix(es@[k].name@, ".pck"@),
    ensures
        engine_for(f, lower_name) == GameEngine::GameMaker,
{
    lemma_marker_kinds(i);
    assert forall|j: int| 0 <= j < 12 implies !marker_present(f, j) by {
        lemma_marker_kinds(j);
    }
    assert(!any_marker(f, 0, 5));
    assert(!any_marker(f, 5, 10));
    assert(!any_marker(f, 10, 12));
    assert(!any_entry(f, 0));
    assert(!any_entry(f, 1));
    assert(!any_entry(f, 2));
    assert(any_marker(f, 12, 15));
}

} // verus!
