//! What the adaptive configuration learns from launches: per-game
//! adaptations updated on each success, the bounded list of failed
//! configurations, and the settings by which launches are compared.
//! Success rates and confidence scores (floating point) and the TOML file
//! are handled outside the library.

use std::time::SystemTime;
use vstd::prelude::*;
use crate::env_vars::{env_clone, env_get, env_lookup, env_view};
use crate::game_detection::{GameConfiguration, InstanceSeparation, WorkingDirStrategy};
use crate::text::{owned, str_eq, strings_clone, strings_view};

verus! {

/// The best configuration found for a game.
#[derive(Debug)]
pub struct OptimalConfig {
    pub working_dir_strategy: String,
    pub separation_level: String,
    pub ports: Vec<u16>,
    pub layout: String,
    pub launch_delay_ms: u64,
}

/// What was learned about one game.
#[derive(Debug)]
pub struct GameAdaptation {
    pub game_id: String,
    pub success_count: u32,
    pub last_success: SystemTime,
    pub optimal_config: OptimalConfig,
    pub working_args: Vec<String>,
    pub working_env_vars: Vec<(String, String)>,
    pub notes: Vec<String>,
}

/// A configuration that failed to launch.
#[derive(Debug)]
pub struct FailedConfig {
    pub game_id: String,
    pub config: Vec<(String, String)>,
    pub failure_reason: String,
    pub failed_at: SystemTime,
}

/// The name under which a working-directory strategy is recorded.
pub open spec fn strategy_name_of(s: WorkingDirStrategy) -> Seq<char> {
    match s {
        WorkingDirStrategy::GameDirectory => "GameDirectory"@,
        WorkingDirStrategy::SeparateDirectories => "SeparateDirectories"@,
        WorkingDirStrategy::Temporary => "Temporary"@,
        WorkingDirStrategy::Current => "Current"@,
    }
}

/// The name under which a separation level is recorded.
pub open spec fn separation_name_of(s: InstanceSeparation) -> Seq<char> {
    match s {
        InstanceSeparation::NoSeparation => "None"@,
        InstanceSeparation::Environment => "Environment"@,
        InstanceSeparation::Full => "Full"@,
    }
}

/// The recorded name of a working-directory strategy.
pub fn strategy_name(s: WorkingDirStrategy) -> (r: String)
    ensures
        r@ == strategy_name_of(s),
{
    match s {
        WorkingDirStrategy::GameDirectory => owned("GameDirectory"),
        WorkingDirStrategy::SeparateDirectories => owned("SeparateDirectories"),
        WorkingDirStrategy::Temporary => owned("Temporary"),
        WorkingDirStrategy::Current => owned("Current"),
    }
}

/// The recorded name of a separation level.
pub fn separation_name(s: InstanceSeparation) -> (r: String)
    ensures
        r@ == separation_name_of(s),
{
    match s {
        InstanceSeparation::NoSeparation => owned("None"),
        InstanceSeparation::Environment => owned("Environment"),
        InstanceSeparation::Full => owned("Full"),
    }
}

/// The settings by which launches are compared: working directory,
/// separation and layout.
pub open spec fn launch_settings_of(c: GameConfiguration) -> Seq<(Seq<char>, Seq<char>)> {
    seq![
        ("working_dir"@, strategy_name_of(c.working_dir_strategy)),
        ("separation"@, separation_name_of(c.instance_separation)),
        ("layout"@, c.layout@),
    ]
}

/// The settings of a launch (see `launch_settings_of`).
pub fn launch_settings(config: &GameConfiguration) -> (r: Vec<(String, String)>)
    ensures
        env_view(r@) == launch_settings_of(*config),
{
    let r = vec![
        (owned("working_dir"), strategy_name(config.working_dir_strategy)),
        (owned("separation"), separation_name(config.instance_separation)),
        (owned("layout"), config.layout.clone()),
    ];
    assert(env_view(r@) =~= launch_settings_of(*config));
    r
}

/// `b` holds the pair `p`.
pub open spec fn has_pair(b: Seq<(Seq<char>, Seq<char>)>, p: (Seq<char>, Seq<char>)) -> bool {
    exists|j: int| 0 <= j < b.len() && b[j] == p
}

/// Two settings lists hold the same (name, value) pairs.
pub open spec fn same_settings(a: Seq<(Seq<char>, Seq<char>)>, b: Seq<(Seq<char>, Seq<char>)>) -> bool {
    &&& forall|i: int| 0 <= i < a.len() ==> has_pair(b, #[trigger] a[i])
    &&& forall|j: int| 0 <= j < b.len() ==> has_pair(a, #[trigger] b[j])
}

/// Whether every pair of `a` is in `b`.
fn all_pairs_in(a: &Vec<(String, String)>, b: &Vec<(String, String)>) -> (r: bool)
    ensures
        r == forall|i: int| 0 <= i < a@.len() ==> has_pair(env_view(b@), #[trigger] env_view(a@)[i]),
{
    let ghost av = env_view(a@);
    let ghost bv = env_view(b@);
    let mut i: usize = 0;
    while i < a.len()
        invariant
            av == env_view(a@),
            bv == env_view(b@),
            i <= a@.len(),
            forall|k: int| 0 <= k < i ==> has_pair(bv, #[trigger] av[k]),
        decreases a.len() - i,
    {
        let mut j: usize = 0;
        let mut found = false;
        while j < b.len()
            invariant
                av == env_view(a@),
                bv == env_view(b@),
                i < a@.len(),
                j <= b@.len(),
                !found ==> forall|t: int| 0 <= t < j ==> bv[t] != av[i as int],
                found ==> has_pair(bv, av[i as int]),
            decreases b.len() - j,
        {
            if !found && str_eq(a[i].0.as_str(), b[j].0.as_str()) && str_eq(a[i].1.as_str(), b[j].1.as_str()) {
                assert(bv[j as int] == av[i as int]);
                found = true;
            }
            j = j + 1;
        }
        if !found {
            assert(!has_pair(bv, av[i as int]));
            return false;
        }
        i = i + 1;
    }
    true
}

/// Whether two settings lists hold the same pairs (see `same_settings`).
pub fn settings_match(a: &Vec<(String, String)>, b: &Vec<(String, String)>) -> (r: bool)
    ensures
        r == same_settings(env_view(a@), env_view(b@)),
{
    all_pairs_in(a, b) && all_pairs_in(b, a)
}

/// Some failure was recorded for `game_id` with the same settings.
pub open spec fn known_failure(failures: Seq<FailedConfig>, game_id: Seq<char>, config: Seq<(Seq<char>, Seq<char>)>) -> bool {
    exists|i: int|
        0 <= i < failures.len() && (#[trigger] failures[i]).game_id@ == game_id && same_settings(
            env_view(failures[i].config@),
            config,
        )
}

/// Whether these settings already failed for this game.
pub fn is_known_failure(failures: &Vec<FailedConfig>, game_id: &str, config: &Vec<(String, String)>) -> (b: bool)
    ensures
        b == known_failure(failures@, game_id@, env_view(config@)),
{
    let mut i: usize = 0;
    while i < failures.len()
        invariant
            i <= failures@.len(),
            forall|k: int|
                0 <= k < i ==> !((#[trigger] failures@[k]).game_id@ == game_id@ && same_settings(
                    env_view(failures@[k].config@),
                    env_view(config@),
                )),
        decreases failures.len() - i,
    {
        if str_eq(failures[i].game_id.as_str(), game_id) && settings_match(&failures[i].config, config) {
            return true;
        }
        i = i + 1;
    }
    false
}

/// The most failures kept.
pub open spec fn failure_capacity() -> int {
    1000
}

/// The failures kept after recording one more: when there are then more
/// than 1000, the oldest 100 are dropped.
pub open spec fn failures_after(old_list: Seq<FailedConfig>, f: FailedConfig) -> Seq<FailedConfig> {
    let l = old_list.push(f);
    if l.len() > failure_capacity() {
        l.subrange(100, l.len() as int)
    } else {
        l
    }
}

/// Records a failed configuration, keeping the list bounded (see
/// `failures_after`).
pub fn record_failure_entry(failures: &mut Vec<FailedConfig>, f: FailedConfig)
    ensures
        final(failures)@ == failures_after(old(failures)@, f),
{
    failures.push(f);
    if failures.len() > 1000 {
        let kept = failures.split_off(100);
        *failures = kept;
    }
}

/// Index of the first adaptation for `game_id` (the length when there is
/// none).
pub open spec fn adaptation_index(list: Seq<GameAdaptation>, game_id: Seq<char>, i: int) -> int
    decreases list.len() - i,
{
    if i < 0 || i >= list.len() {
        list.len() as int
    } else if list[i].game_id@ == game_id {
        i
    } else {
        adaptation_index(list, game_id, i + 1)
    }
}

proof fn lemma_adaptation_index_bounds(list: Seq<GameAdaptation>, game_id: Seq<char>, i: int)
    requires
        0 <= i <= list.len(),
    ensures
        i <= adaptation_index(list, game_id, i) <= list.len(),
    decreases list.len() - i,
{
    if i < list.len() && list[i].game_id@ != game_id {
        lemma_adaptation_index_bounds(list, game_id, i + 1);
    }
}

/// The adaptation for `game_id`, if there is one.
pub fn get_game_adaptation<'a>(list: &'a Vec<GameAdaptation>, game_id: &str) -> (r: Option<&'a GameAdaptation>)
    ensures
        match r {
            Some(a) => adaptation_index(list@, game_id@, 0) < list@.len() && *a == list@[adaptation_index(
                list@,
                game_id@,
                0,
            )],
            None => adaptation_index(list@, game_id@, 0) == list@.len(),
        },
{
    let i = adaptation_index_of(list, game_id);
    if i < list.len() {
        Some(&list[i])
    } else {
        None
    }
}

/// Index of the adaptation for `game_id` (the length when there is none).
pub fn adaptation_index_of(list: &Vec<GameAdaptation>, game_id: &str) -> (i: usize)
    ensures
        i == adaptation_index(list@, game_id@, 0),
        i <= list@.len(),
{
    proof {
        lemma_adaptation_index_bounds(list@, game_id@, 0);
    }
    let mut i: usize = 0;
    while i < list.len()
        invariant
            i <= list@.len(),
            adaptation_index(list@, game_id@, 0) == adaptation_index(list@, game_id@, i as int),
        decreases list.len() - i,
    {
        if str_eq(list[i].game_id.as_str(), game_id) {
            return i;
        }
        i = i + 1;
    }
    i
}

/// A first adaptation for a game, learned from a configuration at time
/// `now`: no successes yet, the configuration's strategy, separation,
/// ports, layout, arguments and environment, no launch delay and no notes.
pub open spec fn fresh_adaptation(a: GameAdaptation, game_id: Seq<char>, c: GameConfiguration, now: SystemTime) -> bool {
    &&& a.game_id@ == game_id
    &&& a.success_count == 0
    &&& a.last_success == now
    &&& a.optimal_config.working_dir_strategy@ == strategy_name_of(c.working_dir_strategy)
    &&& a.optimal_config.separation_level@ == separation_name_of(c.instance_separation)
    &&& a.optimal_config.ports@ == c.ports@
    &&& a.optimal_config.layout@ == c.layout@
    &&& a.optimal_config.launch_delay_ms == 0
    &&& strings_view(a.working_args@) == strings_view(c.launch_args@)
    &&& env_view(a.working_env_vars@) == env_view(c.environment_vars@)
    &&& a.notes@.len() == 0
}

/// A first adaptation for a game (see `fresh_adaptation`).
pub fn new_adaptation(game_id: String, config: &GameConfiguration, now: SystemTime) -> (a: GameAdaptation)
    ensures
        fresh_adaptation(a, game_id@, *config, now),
{
    let mut ports: Vec<u16> = Vec::new();
    let mut i: usize = 0;
    while i < config.ports.len()
        invariant
            i <= config.ports@.len(),
            ports@ == config.ports@.subrange(0, i as int),
        decreases config.ports.len() - i,
    {
        ports.push(config.ports[i]);
        assert(ports@ =~= config.ports@.subrange(0, i + 1));
        i = i + 1;
    }
    assert(ports@ =~= config.ports@);
    GameAdaptation {
        game_id,
        success_count: 0,
        last_success: now,
        optimal_config: OptimalConfig {
            working_dir_strategy: strategy_name(config.working_dir_strategy),
            separation_level: separation_name(config.instance_separation),
            ports,
            layout: config.layout.clone(),
            launch_delay_ms: 0,
        },
        working_args: strings_clone(&config.launch_args),
        working_env_vars: env_clone(&config.environment_vars),
        notes: Vec::new(),
    }
}

/// `b` is adaptation `a` after one more success at time `now` with a
/// launch that took `launch_ms` milliseconds: one more success, the new
/// time, and the launch delay lowered to `launch_ms` when that is shorter;
/// everything else unchanged.
pub open spec fn after_success(a: GameAdaptation, b: GameAdaptation, now: SystemTime, launch_ms: u128) -> bool {
    &&& b.game_id == a.game_id
    &&& b.success_count == a.success_count + 1
    &&& b.last_success == now
    &&& b.optimal_config.working_dir_strategy == a.optimal_config.working_dir_strategy
    &&& b.optimal_config.separation_level == a.optimal_config.separation_level
    &&& b.optimal_config.ports == a.optimal_config.ports
    &&& b.optimal_config.layout == a.optimal_config.layout
    &&& b.optimal_config.launch_delay_ms == if launch_ms < a.optimal_config.launch_delay_ms {
        launch_ms as u64
    } else {
        a.optimal_config.launch_delay_ms
    }
    &&& b.working_args == a.working_args
    &&& b.working_env_vars == a.working_env_vars
    &&& b.notes == a.notes
}

/// Records a successful launch of `game_id` with `config` at time `now`,
/// which took `launch_ms` milliseconds: the game's adaptation, created from
/// the configuration when there is none yet, gets one more success (see
/// `after_success`). A count at `u32::MAX` cannot grow.
pub fn record_adaptation_success(
    list: &mut Vec<GameAdaptation>,
    game_id: String,
    config: &GameConfiguration,
    now: SystemTime,
    launch_ms: u128,
)
    requires
        adaptation_index(old(list)@, game_id@, 0) < old(list)@.len() ==> old(list)@[adaptation_index(
            old(list)@,
            game_id@,
            0,
        )].success_count < u32::MAX,
    ensures
        ({
            let i = adaptation_index(old(list)@, game_id@, 0);
            if i < old(list)@.len() {
                &&& final(list)@.len() == old(list)@.len()
                &&& forall|j: int| 0 <= j < old(list)@.len() && j != i ==> final(list)@[j] == old(list)@[j]
                &&& after_success(old(list)@[i], final(list)@[i], now, launch_ms)
            } else {
                &&& final(list)@.len() == old(list)@.len() + 1
                &&& final(list)@.subrange(0, old(list)@.len() as int) == old(list)@
                &&& exists|fresh: GameAdaptation|
                    fresh_adaptation(fresh, game_id@, *config, now) && after_success(
                        fresh,
                        #[trigger] final(list)@[i],
                        now,
                        launch_ms,
                    )
            }
        }),
{
    let i = adaptation_index_of(list, game_id.as_str());
    let ghost before = list@;
    if i == list.len() {
        let fresh = new_adaptation(game_id, config, now);
        list.push(fresh);
    }
    let ghost mid = list@;
    assert(mid[i as int].success_count < u32::MAX);
    let mut a = list.remove(i);
    a.success_count = a.success_count + 1;
    a.last_success = now;
    if launch_ms < a.optimal_config.launch_delay_ms as u128 {
        a.optimal_config.launch_delay_ms = launch_ms as u64;
    }
    list.insert(i, a);
    proof {
        if i < before.len() {
            assert(mid == before);
        } else {
            assert(list@.subrange(0, before.len() as int) =~= before);
        }
    }
}

/// The total of a list of success counts.
pub open spec fn total_success(list: Seq<GameAdaptation>) -> int
    decreases list.len(),
{
    if list.len() == 0 {
        0
    } else {
        total_success(list.drop_last()) + list.last().success_count
    }
}

/// The number of successful launches recorded over all games. A total past
/// `u32::MAX` is outside what is accepted.
pub fn total_successes(list: &Vec<GameAdaptation>) -> (n: u32)
    requires
        total_success(list@) <= u32::MAX,
    ensures
        n == total_success(list@),
{
    let mut n: u32 = 0;
    let mut i: usize = 0;
    while i < list.len()
        invariant
            i <= list@.len(),
            total_success(list@) <= u32::MAX,
            n == total_success(list@.subrange(0, i as int)),
        decreases list.len() - i,
    {
        proof {
            assert(list@.subrange(0, i + 1).drop_last() =~= list@.subrange(0, i as int));
            lemma_total_success_prefix(list@, i + 1);
        }
        n = n + list[i].success_count;
        i = i + 1;
    }
    assert(list@.subrange(0, i as int) =~= list@);
    n
}

proof fn lemma_total_success_prefix(list: Seq<GameAdaptation>, k: int)
    requires
        0 <= k <= list.len(),
    ensures
        total_success(list.subrange(0, k)) <= total_success(list),
    decreases list.len(),
{
    if k < list.len() {
        assert(list.drop_last().subrange(0, k) =~= list.subrange(0, k));
        lemma_total_success_prefix(list.drop_last(), k);
    } else {
        assert(list.subrange(0, k) =~= list);
    }
}

/// Recording a failure keeps at most 1000 failures when there were at most
/// 1000 before, and the failure just recorded is always kept, as the
/// newest.
pub proof fn failures_stay_bounded(list: Seq<FailedConfig>, f: FailedConfig)
    requires
        list.len() <= failure_capacity(),
    ensures
        failures_after(list, f).len() <= failure_capacity(),
        failures_after(list, f).len() > 0,
        failures_after(list, f).last() == f,
{
}


/// A launch pattern that worked, without its success rate: the engine it
/// was seen with, its settings, and how many launches used it.
#[derive(Debug)]
pub struct PatternRecord {
    pub engine: Option<String>,
    pub config: Vec<(String, String)>,
    pub success_count: u32,
}

/// The engine name of a pattern, as characters.
pub open spec fn engine_view(e: Option<String>) -> Option<Seq<char>> {
    match e {
        Some(s) => Some(s@),
        None => None,
    }
}

/// Pattern `p` is the one for this engine and these settings.
pub open spec fn pattern_matches(p: PatternRecord, engine: Option<Seq<char>>, config: Seq<(Seq<char>, Seq<char>)>) -> bool {
    engine_view(p.engine) == engine && same_settings(env_view(p.config@), config)
}

/// Index of the first pattern from `i` on for this engine and these
/// settings (the length when there is none).
pub open spec fn pattern_index(
    list: Seq<PatternRecord>,
    engine: Option<Seq<char>>,
    config: Seq<(Seq<char>, Seq<char>)>,
    i: int,
) -> int
    decreases list.len() - i,
{
    if i < 0 || i >= list.len() {
        list.len() as int
    } else if pattern_matches(list[i], engine, config) {
        i
    } else {
        pattern_index(list, engine, config, i + 1)
    }
}

proof fn lemma_pattern_index_bounds(
    list: Seq<PatternRecord>,
    engine: Option<Seq<char>>,
    config: Seq<(Seq<char>, Seq<char>)>,
    i: int,
)
    requires
        0 <= i <= list.len(),
    ensures
        i <= pattern_index(list, engine, config, i) <= list.len(),
        pattern_index(list, engine, config, i) < list.len() ==> pattern_matches(
            list[pattern_index(list, engine, config, i)],
            engine,
            config,
        ),
    decreases list.len() - i,
{
    if i < list.len() && !pattern_matches(list[i], engine, config) {
        lemma_pattern_index_bounds(list, engine, config, i + 1);
    }
}

/// Whether two engine names are the same (both absent, or equal).
fn same_engine(a: &Option<String>, b: &Option<String>) -> (r: bool)
    ensures
        r == (engine_view(*a) == engine_view(*b)),
{
    match (a, b) {
        (Some(x), Some(y)) => str_eq(x.as_str(), y.as_str()),
        (None, None) => true,
        _ => false,
    }
}

/// Index of the first pattern for this engine and these settings (the
/// length when there is none).
pub fn pattern_index_of(
    patterns: &Vec<PatternRecord>,
    engine: &Option<String>,
    config: &Vec<(String, String)>,
) -> (i: usize)
    ensures
        i == pattern_index(patterns@, engine_view(*engine), env_view(config@), 0),
        i <= patterns@.len(),
{
    let ghost ev = engine_view(*engine);
    let ghost cv = env_view(config@);
    proof {
        lemma_pattern_index_bounds(patterns@, ev, cv, 0);
    }
    let mut i: usize = 0;
    while i < patterns.len()
        invariant
            ev == engine_view(*engine),
            cv == env_view(config@),
            i <= patterns@.len(),
            pattern_index(patterns@, ev, cv, 0) == pattern_index(patterns@, ev, cv, i as int),
        decreases patterns.len() - i,
    {
        if same_engine(&patterns[i].engine, engine) && settings_match(&patterns[i].config, config) {
            return i;
        }
        i = i + 1;
    }
    i
}

/// Records one more successful launch for a pattern: the first pattern
/// with the same engine and the same settings counts one more success;
/// when there is none, a new pattern with one success is added at the end.
/// Returns the index of the pattern counted. A count at `u32::MAX` cannot
/// grow.
pub fn record_pattern_success(
    patterns: &mut Vec<PatternRecord>,
    engine: Option<String>,
    config: Vec<(String, String)>,
) -> (k: usize)
    requires
        ({
            let i = pattern_index(old(patterns)@, engine_view(engine), env_view(config@), 0);
            i < old(patterns)@.len() ==> old(patterns)@[i].success_count < u32::MAX
        }),
    ensures
        ({
            let i = pattern_index(old(patterns)@, engine_view(engine), env_view(config@), 0);
            &&& k == i
            &&& if i < old(patterns)@.len() {
                &&& final(patterns)@.len() == old(patterns)@.len()
                &&& forall|j: int|
                    0 <= j < old(patterns)@.len() && j != i ==> final(patterns)@[j] == old(patterns)@[j]
                &&& final(patterns)@[i].engine == old(patterns)@[i].engine
                &&& final(patterns)@[i].config == old(patterns)@[i].config
                &&& final(patterns)@[i].success_count == old(patterns)@[i].success_count + 1
            } else {
                final(patterns)@ == old(patterns)@.push(PatternRecord { engine, config, success_count: 1 })
            }
        }),
{
    let i = pattern_index_of(patterns, &engine, &config);
    if i < patterns.len() {
        let ghost before = patterns@;
        let mut p = patterns.remove(i);
        p.success_count = p.success_count + 1;
        patterns.insert(i, p);
        proof {
            assert forall|j: int| 0 <= j < before.len() && j != i implies patterns@[j] == before[j] by {
                if j < i {
                    assert(patterns@[j] == before.remove(i as int)[j]);
                } else {
                    assert(patterns@[j] == before.remove(i as int)[j - 1]);
                }
            }
        }
        return i;
    }
    let k = patterns.len();
    patterns.push(PatternRecord { engine, config, success_count: 1 });
    k
}

/// A setting of a pattern, or `default` when the pattern does not have it.
pub fn setting_or(config: &Vec<(String, String)>, key: &str, default: &str) -> (r: String)
    ensures
        r@ == match env_get(env_view(config@), key@) {
            Some(v) => v,
            None => default@,
        },
{
    match env_lookup(config, key) {
        Some(v) => v,
        None => owned(default),
    }
}

/// No two adaptations are for the same game.
pub open spec fn ids_unique(list: Seq<GameAdaptation>) -> bool {
    forall|a: int, b: int| 0 <= a < b < list.len() ==> list[a].game_id@ != list[b].game_id@
}

proof fn lemma_adaptation_index_is_first(list: Seq<GameAdaptation>, game_id: Seq<char>, i: int)
    requires
        0 <= i <= list.len(),
    ensures
        forall|j: int| i <= j < adaptation_index(list, game_id, i) ==> list[j].game_id@ != game_id,
        adaptation_index(list, game_id, i) < list.len() ==> list[adaptation_index(list, game_id, i)].game_id@
            == game_id,
    decreases list.len() - i,
{
    lemma_adaptation_index_bounds(list, game_id, i);
    if i < list.len() && list[i].game_id@ != game_id {
        lemma_adaptation_index_is_first(list, game_id, i + 1);
    }
}

proof fn lemma_adaptation_found(list: Seq<GameAdaptation>, game_id: Seq<char>, j: int)
    requires
        0 <= j < list.len(),
        list[j].game_id@ == game_id,
    ensures
        adaptation_index(list, game_id, 0) <= j,
{
    lemma_adaptation_index_is_first(list, game_id, 0);
    if adaptation_index(list, game_id, 0) > j {
        assert(list[j].game_id@ != game_id);
    }
}

/// Recording a success never gives one game two adaptations: whatever was
/// recorded, a list without repeated games stays without them, and the
/// game then has its adaptation.
pub proof fn adaptations_stay_unique(
    before: Seq<GameAdaptation>,
    after: Seq<GameAdaptation>,
    game_id: Seq<char>,
    config: GameConfiguration,
    now: SystemTime,
    launch_ms: u128,
)
    requires
        ids_unique(before),
        ({
            let i = adaptation_index(before, game_id, 0);
            if i < before.len() {
                &&& after.len() == before.len()
                &&& forall|j: int| 0 <= j < before.len() && j != i ==> after[j] == before[j]
                &&& after_success(before[i], after[i], now, launch_ms)
            } else {
                &&& after.len() == before.len() + 1
                &&& after.subrange(0, before.len() as int) == before
                &&& exists|fresh: GameAdaptation|
                    fresh_adaptation(fresh, game_id, config, now) && after_success(
                        fresh,
                        #[trigger] after[i],
                        now,
                        launch_ms,
                    )
            }
        }),
    ensures
        ids_unique(after),
        adaptation_index(after, game_id, 0) < after.len(),
{
    let i = adaptation_index(before, game_id, 0);
    lemma_adaptation_index_is_first(before, game_id, 0);
    lemma_adaptation_index_bounds(before, game_id, 0);
    if i < before.len() {
        assert forall|a: int, b: int| 0 <= a < b < after.len() implies after[a].game_id@ != after[b].game_id@ by {
            if a != i && b != i {
                assert(after[a] == before[a] && after[b] == before[b]);
            } else if a == i {
                assert(after[b] == before[b]);
            } else {
                assert(after[a] == before[a]);
            }
        }
        assert(after[i].game_id@ == game_id);
        lemma_adaptation_found(after, game_id, i);
    } else {
        let fresh = choose|fresh: GameAdaptation|
            fresh_adaptation(fresh, game_id, config, now) && after_success(fresh, #[trigger] after[i], now, launch_ms);
        assert(after[i].game_id@ == game_id);
        assert forall|a: int, b: int| 0 <= a < b < after.len() implies after[a].game_id@ != after[b].game_id@ by {
            assert(after.subrange(0, before.len() as int)[a] == after[a]);
            assert(before[a] == after[a]);
            if b < before.len() {
                assert(after.subrange(0, before.len() as int)[b] == after[b]);
                assert(before[b] == after[b]);
            } else {
                assert(b == i);
                assert(before[a].game_id@ != game_id);
            }
        }
        lemma_adaptation_found(after, game_id, i);
    }
}

} // verus!
