//! How the universal launcher starts each game instance: its working
//! directory, command-line arguments, environment, the files copied into a
//! separate instance directory, and the statistics it reports. Spawning
//! processes and copying files happens outside the library.

use vstd::prelude::*;
use crate::env_vars::env_view;
use crate::game_detection::{GameConfiguration, InstanceSeparation, WorkingDirStrategy};
use crate::text::{concat, decimal, owned, strings_view, with_number};

verus! {

/// Statistics about running game instances.
#[derive(Debug, Clone, Copy, PartialEq, Eq, Structural)]
pub struct InstanceStats {
    pub total_instances: usize,
    pub running_instances: usize,
    pub total_memory_mb: u64,
}

/// The statistics reported for `active` launched instances: each counts as
/// running and as using 100 MB.
pub fn instance_stats(active: usize) -> (s: InstanceStats)
    requires
        active <= u64::MAX / 100,
    ensures
        s.total_instances == active,
        s.running_instances == active,
        s.total_memory_mb == 100 * active,
{
    let mut running: usize = 0;
    let mut memory: u64 = 0;
    let mut i: usize = 0;
    while i < active
        invariant
            active <= u64::MAX / 100,
            i <= active,
            running == i,
            memory == 100 * i,
        decreases active - i,
    {
        running = running + 1;
        memory = memory + 100;
        i = i + 1;
    }
    InstanceStats { total_instances: active, running_instances: running, total_memory_mb: memory }
}

/// Where an instance runs.
#[derive(Debug, Clone, PartialEq, Eq)]
pub enum WorkingDirPlan {
    /// The game's own directory.
    GameDir,
    /// This subdirectory of the game's directory.
    InGameDir(String),
    /// This subdirectory of the system's temporary directory.
    InTempDir(String),
    /// The launcher's current directory.
    CurrentDir,
}

/// The working directory of instance `i` under a strategy: the game's
/// directory, `instance_<i>` inside it, `hydra_game_instance_<i>` inside the
/// temporary directory, or the current directory.
pub fn working_dir_plan(strategy: WorkingDirStrategy, instance_id: usize) -> (p: WorkingDirPlan)
    ensures
        strategy == WorkingDirStrategy::GameDirectory ==> p is GameDir,
        strategy == WorkingDirStrategy::SeparateDirectories ==> (p matches WorkingDirPlan::InGameDir(d)
            && d@ == "instance_"@ + decimal(instance_id as nat)),
        strategy == WorkingDirStrategy::Temporary ==> (p matches WorkingDirPlan::InTempDir(d)
            && d@ == "hydra_game_instance_"@ + decimal(instance_id as nat)),
        strategy == WorkingDirStrategy::Current ==> p is CurrentDir,
{
    match strategy {
        WorkingDirStrategy::GameDirectory => WorkingDirPlan::GameDir,
        WorkingDirStrategy::SeparateDirectories => WorkingDirPlan::InGameDir(with_number("instance_", instance_id as u64)),
        WorkingDirStrategy::Temporary => WorkingDirPlan::InTempDir(
            with_number("hydra_game_instance_", instance_id as u64),
        ),
        WorkingDirStrategy::Current => WorkingDirPlan::CurrentDir,
    }
}

/// The arguments given to instance `i`: the configuration's own, then the
/// instance id twice, the first port twice when there is one, and the
/// windowed-mode flags.
pub open spec fn instance_arguments(c: GameConfiguration, i: nat) -> Seq<Seq<char>> {
    let own = strings_view(c.launch_args@);
    let ids = seq!["-instance-id="@ + decimal(i), "-hydra-instance="@ + decimal(i)];
    let ports = if c.ports@.len() > 0 {
        seq!["-port="@ + decimal(c.ports@[0] as nat), "-server-port="@ + decimal(c.ports@[0] as nat)]
    } else {
        Seq::empty()
    };
    own + ids + ports + seq!["-windowed"@, "-noborder"@]
}

/// The arguments of instance `instance_id` (see `instance_arguments`).
pub fn launch_arguments(config: &GameConfiguration, instance_id: usize) -> (args: Vec<String>)
    ensures
        strings_view(args@) == instance_arguments(*config, instance_id as nat),
{
    let mut args = crate::text::strings_clone(&config.launch_args);
    let ghost own = strings_view(args@);
    args.push(with_number("-instance-id=", instance_id as u64));
    args.push(with_number("-hydra-instance=", instance_id as u64));
    let ghost after_ids = strings_view(args@);
    if config.ports.len() > 0 {
        args.push(with_number("-port=", config.ports[0] as u64));
        args.push(with_number("-server-port=", config.ports[0] as u64));
    }
    let ghost after_ports = strings_view(args@);
    args.push(owned("-windowed"));
    args.push(owned("-noborder"));
    proof {
        let i = instance_id as nat;
        assert(after_ids =~= own + seq!["-instance-id="@ + decimal(i), "-hydra-instance="@ + decimal(i)]);
        if config.ports@.len() > 0 {
            assert(after_ports =~= after_ids + seq![
                "-port="@ + decimal(config.ports@[0] as nat),
                "-server-port="@ + decimal(config.ports@[0] as nat),
            ]);
        } else {
            assert(after_ports =~= after_ids + Seq::<Seq<char>>::empty());
        }
        assert(strings_view(args@) =~= after_ports + seq!["-windowed"@, "-noborder"@]);
    }
    args
}

/// The environment given to instance `i`, in the order it is applied: the
/// configuration's own variables, the instance id and count, the first port
/// under three names when there is one, and the flags that keep games out
/// of the overlay and full screen.
pub open spec fn instance_environment(c: GameConfiguration, i: nat) -> Seq<(Seq<char>, Seq<char>)> {
    let own = env_view(c.environment_vars@);
    let ids = seq![("HYDRA_INSTANCE_ID"@, decimal(i)), ("HYDRA_INSTANCE_COUNT"@, "1"@)];
    let ports = if c.ports@.len() > 0 {
        let p = decimal(c.ports@[0] as nat);
        seq![("HYDRA_PORT"@, p), ("GAME_PORT"@, p), ("SERVER_PORT"@, p)]
    } else {
        Seq::empty()
    };
    own + ids + ports + seq![
        ("DISABLE_STEAM_OVERLAY"@, "1"@),
        ("DISABLE_FULLSCREEN"@, "1"@),
        ("FORCE_WINDOWED"@, "1"@),
    ]
}

/// The environment of instance `instance_id` (see `instance_environment`).
pub fn environment_variables(config: &GameConfiguration, instance_id: usize) -> (env: Vec<(String, String)>)
    ensures
        env_view(env@) == instance_environment(*config, instance_id as nat),
{
    let mut env = crate::env_vars::env_clone(&config.environment_vars);
    let ghost own = env_view(env@);
    env.push((owned("HYDRA_INSTANCE_ID"), with_number("", instance_id as u64)));
    env.push((owned("HYDRA_INSTANCE_COUNT"), owned("1")));
    let ghost after_ids = env_view(env@);
    if config.ports.len() > 0 {
        env.push((owned("HYDRA_PORT"), with_number("", config.ports[0] as u64)));
        env.push((owned("GAME_PORT"), with_number("", config.ports[0] as u64)));
        env.push((owned("SERVER_PORT"), with_number("", config.ports[0] as u64)));
    }
    let ghost after_ports = env_view(env@);
    env.push((owned("DISABLE_STEAM_OVERLAY"), owned("1")));
    env.push((owned("DISABLE_FULLSCREEN"), owned("1")));
    env.push((owned("FORCE_WINDOWED"), owned("1")));
    proof {
        reveal_strlit("");
        let i = instance_id as nat;
        assert(""@ + decimal(i) =~= decimal(i));
        assert(after_ids =~= own + seq![("HYDRA_INSTANCE_ID"@, decimal(i)), ("HYDRA_INSTANCE_COUNT"@, "1"@)]);
        if config.ports@.len() > 0 {
            let p = decimal(config.ports@[0] as nat);
            assert(""@ + p =~= p);
            assert(after_ports =~= after_ids + seq![("HYDRA_PORT"@, p), ("GAME_PORT"@, p), ("SERVER_PORT"@, p)]);
        } else {
            assert(after_ports =~= after_ids + Seq::<(Seq<char>, Seq<char>)>::empty());
        }
        assert(env_view(env@) =~= after_ports + seq![
            ("DISABLE_STEAM_OVERLAY"@, "1"@),
            ("DISABLE_FULLSCREEN"@, "1"@),
            ("FORCE_WINDOWED"@, "1"@),
        ]);
    }
    env
}

/// The directories of an instance, as text: its working directory and the
/// `userdata`, `saves`, `config` and `cache` directories inside it.
pub struct InstanceDirs {
    pub working_dir: String,
    pub user_data: String,
    pub saves: String,
    pub config: String,
    pub cache: String,
}

/// What separating instance `i` takes: whether its `config`, `saves` and
/// `cache` directories must be created, and the environment it gets. No
/// separation adds nothing; separation by environment names the instance
/// and its data and save directories; full separation points every
/// per-user directory variable into the instance's directory.
pub open spec fn separation_plan(sep: InstanceSeparation, i: nat, d: InstanceDirs) -> (bool, Seq<(Seq<char>, Seq<char>)>) {
    match sep {
        InstanceSeparation::NoSeparation => (false, Seq::empty()),
        InstanceSeparation::Environment => (false, seq![
            ("INSTANCE_ID"@, decimal(i)),
            ("USER_DATA_DIR"@, d.user_data@),
            ("SAVE_DIR"@, d.saves@),
        ]),
        InstanceSeparation::Full => (true, seq![
            ("APPDATA"@, d.config@),
            ("LOCALAPPDATA"@, d.cache@),
            ("USERPROFILE"@, d.working_dir@),
            ("HOME"@, d.working_dir@),
            ("XDG_CONFIG_HOME"@, d.config@),
            ("XDG_DATA_HOME"@, d.saves@),
            ("XDG_CACHE_HOME"@, d.cache@),
        ]),
    }
}

/// What separating instance `instance_id` takes (see `separation_plan`).
pub fn instance_separation(sep: InstanceSeparation, instance_id: usize, dirs: &InstanceDirs) -> (r: (bool, Vec<(String, String)>))
    ensures
        (r.0, env_view(r.1@)) == separation_plan(sep, instance_id as nat, *dirs),
{
    match sep {
        InstanceSeparation::NoSeparation => {
            let env: Vec<(String, String)> = Vec::new();
            assert(env_view(env@) =~= Seq::empty());
            (false, env)
        },
        InstanceSeparation::Environment => {
            let index = with_number("", instance_id as u64);
            let env = vec![
                (owned("INSTANCE_ID"), index),
                (owned("USER_DATA_DIR"), dirs.user_data.clone()),
                (owned("SAVE_DIR"), dirs.saves.clone()),
            ];
            proof {
                reveal_strlit("");
                assert(""@ + decimal(instance_id as nat) =~= decimal(instance_id as nat));
                assert(env_view(env@) =~= separation_plan(sep, instance_id as nat, *dirs).1);
            }
            (false, env)
        },
        InstanceSeparation::Full => {
            let env = vec![
                (owned("APPDATA"), dirs.config.clone()),
                (owned("LOCALAPPDATA"), dirs.cache.clone()),
                (owned("USERPROFILE"), dirs.working_dir.clone()),
                (owned("HOME"), dirs.working_dir.clone()),
                (owned("XDG_CONFIG_HOME"), dirs.config.clone()),
                (owned("XDG_DATA_HOME"), dirs.saves.clone()),
                (owned("XDG_CACHE_HOME"), dirs.cache.clone()),
            ];
            assert(env_view(env@) =~= separation_plan(sep, instance_id as nat, *dirs).1);
            (true, env)
        },
    }
}

/// Index of the last '.' of a name (-1 when there is none).
pub open spec fn last_dot(name: Seq<char>) -> int
    decreases name.len(),
{
    if name.len() == 0 {
        -1
    } else if name.last() == '.' {
        name.len() - 1
    } else {
        last_dot(name.drop_last())
    }
}

/// The extension of a file name, as `Path::extension` gives it: what
/// follows the last '.', unless there is no '.' or the only one starts the
/// name.
pub open spec fn file_extension(name: Seq<char>) -> Option<Seq<char>> {
    let k = last_dot(name);
    if k > 0 {
        Some(name.subrange(k + 1, name.len() as int))
    } else {
        None
    }
}

/// Extensions of the files copied into a separate instance directory.
pub open spec fn essential_extensions() -> Seq<Seq<char>> {
    seq!["dll"@, "so"@, "dylib"@, "ini"@, "cfg"@, "config"@, "xml"@, "json"@]
}

/// The extension of a file name (see `file_extension`).
pub fn extension_of(name: &str) -> (r: Option<String>)
    ensures
        match r {
            Some(e) => file_extension(name@) == Some(e@),
            None => file_extension(name@) is None,
        },
{
    let cs = crate::text::chars_of(name);
    let mut k = cs.len();
    assert(name@.subrange(0, k as int) =~= name@);
    while k > 0 && cs[k - 1] != '.'
        invariant
            cs@ == name@,
            k <= cs@.len(),
            last_dot(name@) == last_dot(name@.subrange(0, k as int)),
        decreases k,
    {
        proof {
            assert(name@.subrange(0, k as int).drop_last() =~= name@.subrange(0, k - 1));
        }
        k = k - 1;
    }
    proof {
        if k > 0 {
            assert(last_dot(name@.subrange(0, k as int)) == k - 1);
        } else {
            assert(name@.subrange(0, 0) =~= Seq::<char>::empty());
        }
    }
    if k > 1 {
        Some(owned(name.substring_char(k, cs.len())))
    } else {
        None
    }
}

/// Whether a file is copied into a separate instance directory: its
/// extension is one of `essential_extensions`.
pub fn is_essential_file(name: &str) -> (b: bool)
    ensures
        b == match file_extension(name@) {
            Some(e) => essential_extensions().contains(e),
            None => false,
        },
{
    match extension_of(name) {
        Some(e) => {
            let exts = vec!["dll", "so", "dylib", "ini", "cfg", "config", "xml", "json"];
            let ghost names = exts@.map_values(|s: &'static str| s@);
            assert(names =~= essential_extensions());
            let mut i: usize = 0;
            while i < exts.len()
                invariant
                    file_extension(name@) == Some(e@),
                    names == exts@.map_values(|s: &'static str| s@),
                    names == essential_extensions(),
                    i <= exts@.len(),
                    forall|k: int| 0 <= k < i ==> names[k] != e@,
                decreases exts.len() - i,
            {
                if crate::text::str_eq(e.as_str(), exts[i]) {
                    assert(names[i as int] == e@);
                    assert(essential_extensions()[i as int] == e@);
                    return true;
                }
                i = i + 1;
            }
            false
        },
        None => false,
    }
}

/// Directories copied whole into a separate instance directory.
pub fn essential_dirs() -> (v: Vec<&'static str>)
    ensures
        v@.map_values(|s: &'static str| s@) == seq!["Data"@, "Config"@, "Plugins"@, "Mods"@],
{
    let v = vec!["Data", "Config", "Plugins", "Mods"];
    assert(v@.map_values(|s: &'static str| s@) =~= seq!["Data"@, "Config"@, "Plugins"@, "Mods"@]);
    v
}

/// The environment `env` sets variable `name`, and every entry for it
/// holds `value`.
pub open spec fn sets_var(env: Seq<(Seq<char>, Seq<char>)>, name: Seq<char>, value: Seq<char>) -> bool {
    &&& exists|k: int| 0 <= k < env.len() && (#[trigger] env[k]).0 == name
    &&& forall|k: int| 0 <= k < env.len() && (#[trigger] env[k]).0 == name ==> env[k].1 == value
}

/// Under full separation the instance's directories are created and every
/// per-user directory variable points into them: the configuration
/// variables (`XDG_CONFIG_HOME`, `APPDATA`) at its config directory, the data
/// variable (`XDG_DATA_HOME`) at its saves directory, the cache variables
/// (`XDG_CACHE_HOME`, `LOCALAPPDATA`) at its cache directory, and the home
/// variables (`HOME`, `USERPROFILE`) at its working directory.
pub proof fn full_separation_points_into_instance(i: nat, d: InstanceDirs)
    ensures
        separation_plan(InstanceSeparation::Full, i, d).0,
        sets_var(separation_plan(InstanceSeparation::Full, i, d).1, "XDG_CONFIG_HOME"@, d.config@),
        sets_var(separation_plan(InstanceSeparation::Full, i, d).1, "APPDATA"@, d.config@),
        sets_var(separation_plan(InstanceSeparation::Full, i, d).1, "XDG_DATA_HOME"@, d.saves@),
        sets_var(separation_plan(InstanceSeparation::Full, i, d).1, "XDG_CACHE_HOME"@, d.cache@),
        sets_var(separation_plan(InstanceSeparation::Full, i, d).1, "LOCALAPPDATA"@, d.cache@),
        sets_var(separation_plan(InstanceSeparation::Full, i, d).1, "HOME"@, d.working_dir@),
        sets_var(separation_plan(InstanceSeparation::Full, i, d).1, "USERPROFILE"@, d.working_dir@),
{
    reveal_strlit("APPDATA");
    reveal_strlit("LOCALAPPDATA");
    reveal_strlit("USERPROFILE");
    reveal_strlit("HOME");
    reveal_strlit("XDG_CONFIG_HOME");
    reveal_strlit("XDG_DATA_HOME");
    reveal_strlit("XDG_CACHE_HOME");
    assert("APPDATA"@.len() == 7);
    assert("LOCALAPPDATA"@.len() == 12);
    assert("USERPROFILE"@.len() == 11);
    assert("HOME"@.len() == 4);
    assert("XDG_CONFIG_HOME"@.len() == 15);
    assert("XDG_DATA_HOME"@.len() == 13);
    assert("XDG_CACHE_HOME"@.len() == 14);
    let env = separation_plan(InstanceSeparation::Full, i, d).1;
    assert(env[0].0 == "APPDATA"@);
    assert(env[1].0 == "LOCALAPPDATA"@);
    assert(env[2].0 == "USERPROFILE"@);
    assert(env[3].0 == "HOME"@);
    assert(env[4].0 == "XDG_CONFIG_HOME"@);
    assert(env[5].0 == "XDG_DATA_HOME"@);
    assert(env[6].0 == "XDG_CACHE_HOME"@);
}

/// Under separation by environment no directory is created, and the
/// instance gets its number (`INSTANCE_ID`), its user-data directory
/// (`USER_DATA_DIR`) and its saves directory (`SAVE_DIR`); without
/// separation it gets nothing.
pub proof fn environment_separation_names_instance(i: nat, d: InstanceDirs)
    ensures
        !separation_plan(InstanceSeparation::Environment, i, d).0,
        sets_var(separation_plan(InstanceSeparation::Environment, i, d).1, "INSTANCE_ID"@, decimal(i)),
        sets_var(separation_plan(InstanceSeparation::Environment, i, d).1, "USER_DATA_DIR"@, d.user_data@),
        sets_var(separation_plan(InstanceSeparation::Environment, i, d).1, "SAVE_DIR"@, d.saves@),
        !separation_plan(InstanceSeparation::NoSeparation, i, d).0,
        separation_plan(InstanceSeparation::NoSeparation, i, d).1.len() == 0,
{
    reveal_strlit("INSTANCE_ID");
    reveal_strlit("USER_DATA_DIR");
    reveal_strlit("SAVE_DIR");
    assert("INSTANCE_ID"@.len() == 11);
    assert("USER_DATA_DIR"@.len() == 13);
    assert("SAVE_DIR"@.len() == 8);
    let env = separation_plan(InstanceSeparation::Environment, i, d).1;
    assert(env[0].0 == "INSTANCE_ID"@);
    assert(env[1].0 == "USER_DATA_DIR"@);
    assert(env[2].0 == "SAVE_DIR"@);
}

} // verus!
