//! The launcher's user configuration: its defaults, validation rules and
//! merging. Reading and writing the TOML file happens outside the library.

use std::path::PathBuf;
use vstd::prelude::*;
use crate::defaults::MAX_INSTANCES;
use crate::text::{owned, strings_view};

verus! {

/// A reason for which a configuration is rejected.
#[derive(Debug)]
pub enum ValidationError {
    InvalidInstanceCount(usize),
    InvalidNetworkPort(u16),
    MissingGamePath,
    InvalidGamePath(PathBuf),
}

/// A failure while loading, saving or validating a configuration.
#[derive(Debug)]
pub enum ConfigError {
    IoError(std::io::Error),
    TomlDeError(toml::de::Error),
    TomlSeError(toml::ser::Error),
    GenericError(String),
    Validation(ValidationError),
}

impl From<std::io::Error> for ConfigError {
    fn from(err: std::io::Error) -> (r: Self) {
        ConfigError::IoError(err)
    }
}

impl vstd::std_specs::convert::FromSpecImpl<std::io::Error> for ConfigError {
    open spec fn obeys_from_spec() -> bool {
        true
    }

    open spec fn from_spec(v: std::io::Error) -> Self {
        ConfigError::IoError(v)
    }
}

impl From<toml::de::Error> for ConfigError {
    fn from(err: toml::de::Error) -> (r: Self) {
        ConfigError::TomlDeError(err)
    }
}

impl vstd::std_specs::convert::FromSpecImpl<toml::de::Error> for ConfigError {
    open spec fn obeys_from_spec() -> bool {
        true
    }

    open spec fn from_spec(v: toml::de::Error) -> Self {
        ConfigError::TomlDeError(v)
    }
}

impl From<toml::ser::Error> for ConfigError {
    fn from(err: toml::ser::Error) -> (r: Self) {
        ConfigError::TomlSeError(err)
    }
}

impl vstd::std_specs::convert::FromSpecImpl<toml::ser::Error> for ConfigError {
    open spec fn obeys_from_spec() -> bool {
        true
    }

    open spec fn from_spec(v: toml::ser::Error) -> Self {
        ConfigError::TomlSeError(v)
    }
}

impl From<ValidationError> for ConfigError {
    fn from(err: ValidationError) -> (r: Self) {
        ConfigError::Validation(err)
    }
}

impl vstd::std_specs::convert::FromSpecImpl<ValidationError> for ConfigError {
    open spec fn obeys_from_spec() -> bool {
        true
    }

    open spec fn from_spec(v: ValidationError) -> Self {
        ConfigError::Validation(v)
    }
}

/// The launcher's configuration.
#[derive(Debug, Clone)]
pub struct Config {
    /// Game executables; the first one is the one launched.
    pub game_paths: Vec<PathBuf>,
    /// One input-device choice per player (a device name or "Auto-detect").
    pub input_mappings: Vec<String>,
    /// Window layout name, such as "horizontal" or "vertical".
    pub window_layout: String,
    /// The game port of each instance.
    pub network_ports: Vec<u16>,
    /// Whether games are started through Proton.
    pub use_proton: bool,
}

/// Smallest index at or after `i` of a port below 1024, if any.
pub open spec fn low_port_from(ports: Seq<u16>, i: int) -> Option<int>
    decreases ports.len() - i,
{
    if i < 0 || i >= ports.len() {
        None
    } else if ports[i] < 1024 {
        Some(i)
    } else {
        low_port_from(ports, i + 1)
    }
}

/// What validation rejects of `c`, given the index of the first game path
/// that is missing on disk (`None` when all of them exist); `None` when
/// nothing is rejected. The checks run in order: paths given, paths exist,
/// player count within 1..=MAX_INSTANCES, every port at least 1024.
pub open spec fn validation_outcome(c: Config, first_missing: Option<int>) -> Option<ValidationError> {
    let n = c.input_mappings@.len();
    if c.game_paths@.len() == 0 {
        Some(ValidationError::MissingGamePath)
    } else if first_missing is Some {
        Some(ValidationError::InvalidGamePath(c.game_paths@[first_missing->0]))
    } else if n == 0 || n > MAX_INSTANCES {
        Some(ValidationError::InvalidInstanceCount(n as usize))
    } else if low_port_from(c.network_ports@, 0) is Some {
        Some(ValidationError::InvalidNetworkPort(c.network_ports@[low_port_from(c.network_ports@, 0)->0]))
    } else {
        None
    }
}

/// The `Result` that validation returns for a given outcome.
pub open spec fn as_validation_result(o: Option<ValidationError>) -> Result<(), ConfigError> {
    match o {
        None => Ok(()),
        Some(e) => Err(ConfigError::Validation(e)),
    }
}

/// `a` merged with `b`, `b` taking precedence: each list of `b` replaces
/// that of `a` when it is not empty, the layout of `b` replaces that of `a`
/// whenever it is set (not empty), and the Proton flag of `b` always wins.
pub open spec fn merged(a: Config, b: Config) -> Config {
    Config {
        game_paths: if b.game_paths@.len() > 0 { b.game_paths } else { a.game_paths },
        input_mappings: if b.input_mappings@.len() > 0 { b.input_mappings } else { a.input_mappings },
        window_layout: if b.window_layout@.len() > 0 { b.window_layout } else { a.window_layout },
        network_ports: if b.network_ports@.len() > 0 { b.network_ports } else { a.network_ports },
        use_proton: b.use_proton,
    }
}

/// `Path::exists` on `p`: whether an entry is present at that path now. The
/// answer depends on the filesystem at the time of the call, so nothing is
/// stated of it.
#[verifier::external_body]
fn path_exists(p: &PathBuf) -> bool {
    p.exists()
}

impl Default for Config {
    /// An empty configuration: no paths, mappings or ports, an empty layout
    /// name and Proton off.
    fn default() -> (c: Self)
        ensures
            c.game_paths@.len() == 0,
            c.input_mappings@.len() == 0,
            c.window_layout@.len() == 0,
            c.network_ports@.len() == 0,
            !c.use_proton,
    {
        Config {
            game_paths: Vec::new(),
            input_mappings: Vec::new(),
            window_layout: String::new(),
            network_ports: Vec::new(),
            use_proton: false,
        }
    }
}

impl Config {
    /// The configuration used when none is saved: two players on
    /// auto-detected input, horizontal layout, ports 7777 and 7778, no
    /// Proton and no game chosen yet.
    pub fn default_config() -> (c: Config)
        ensures
            c.game_paths@.len() == 0,
            strings_view(c.input_mappings@) == seq!["Auto-detect"@, "Auto-detect"@],
            c.window_layout@ == "horizontal"@,
            c.network_ports@ == seq![7777u16, 7778u16],
            !c.use_proton,
    {
        let c = Config {
            game_paths: Vec::new(),
            input_mappings: vec![owned("Auto-detect"), owned("Auto-detect")],
            window_layout: owned("horizontal"),
            network_ports: vec![7777u16, 7778u16],
            use_proton: false,
        };
        assert(strings_view(c.input_mappings@) =~= seq!["Auto-detect"@, "Auto-detect"@]);
        assert(c.network_ports@ =~= seq![7777u16, 7778u16]);
        c
    }

    /// Validates the configuration, given the index of the first game path
    /// that does not exist on disk (`None` when all exist).
    pub fn validate_with(&self, first_missing: Option<usize>) -> (r: Result<(), ConfigError>)
        requires
            first_missing matches Some(i) ==> i < self.game_paths@.len(),
        ensures
            r == as_validation_result(validation_outcome(*self, match first_missing {
                Some(i) => Some(i as int),
                None => None,
            })),
    {
        if self.game_paths.len() == 0 {
            return Err(ConfigError::Validation(ValidationError::MissingGamePath));
        }
        if let Some(i) = first_missing {
            return Err(ConfigError::Validation(ValidationError::InvalidGamePath(self.game_paths[i].clone())));
        }
        let instance_count = self.input_mappings.len();
        if instance_count == 0 || instance_count > MAX_INSTANCES {
            return Err(ConfigError::Validation(ValidationError::InvalidInstanceCount(instance_count)));
        }
        let mut j: usize = 0;
        while j < self.network_ports.len()
            invariant
                j <= self.network_ports@.len(),
                self.game_paths@.len() > 0,
                first_missing is None,
                instance_count == self.input_mappings@.len(),
                1 <= instance_count <= MAX_INSTANCES,
                low_port_from(self.network_ports@, 0) == low_port_from(self.network_ports@, j as int),
            decreases self.network_ports.len() - j,
        {
            let port = self.network_ports[j];
            if port < 1024 || port == 0 {
                assert(low_port_from(self.network_ports@, j as int) == Some(j as int));
                return Err(ConfigError::Validation(ValidationError::InvalidNetworkPort(port)));
            }
            j = j + 1;
        }
        Ok(())
    }

    /// Validates the configuration: a game path must be given and exist,
    /// there must be 1 to MAX_INSTANCES input mappings, and every port must
    /// be at least 1024. The first failing check gives the error. Which
    /// paths exist depends on the filesystem; the result is the outcome for
    /// some first-missing index (or none).
    pub fn validate(&self) -> (r: Result<(), ConfigError>)
        ensures
            exists|fm: Option<int>|
                (fm matches Some(i) ==> 0 <= i < self.game_paths@.len())
                && r == as_validation_result(#[trigger] validation_outcome(*self, fm)),
    {
        let mut first_missing: Option<usize> = None;
        let mut i: usize = 0;
        while i < self.game_paths.len()
            invariant
                i <= self.game_paths@.len(),
                first_missing matches Some(k) ==> k < self.game_paths@.len(),
            decreases self.game_paths.len() - i,
        {
            if !path_exists(&self.game_paths[i]) {
                first_missing = Some(i);
                break;
            }
            i = i + 1;
        }
        let r = self.validate_with(first_missing);
        let ghost fm: Option<int> = match first_missing {
            Some(k) => Some(k as int),
            None => None,
        };
        assert(r == as_validation_result(validation_outcome(*self, fm)));
        r
    }

    /// The game executable that is launched: the first configured path.
    pub fn primary_game_path(&self) -> (r: Option<&PathBuf>)
        ensures
            match r {
                Some(p) => self.game_paths@.len() > 0 && *p == self.game_paths@[0],
                None => self.game_paths@.len() == 0,
            },
    {
        if self.game_paths.len() > 0 {
            Some(&self.game_paths[0])
        } else {
            None
        }
    }

    /// The number of instances: one per input mapping, and at least one.
    pub open spec fn instance_count_spec(&self) -> int {
        if self.input_mappings@.len() > 1 { self.input_mappings@.len() as int } else { 1 }
    }

    /// The number of instances: one per input mapping, and at least one.
    pub fn instance_count(&self) -> (n: usize)
        ensures
            n == self.instance_count_spec(),
    {
        let len = self.input_mappings.len();
        if len > 1 { len } else { 1 }
    }

    /// Merges `other` into this configuration, `other` taking precedence
    /// (see `merged`).
    pub fn merge_with(&mut self, other: Config)
        ensures
            *final(self) == merged(*old(self), other),
    {
        let Config { game_paths, input_mappings, window_layout, network_ports, use_proton } = other;
        if game_paths.len() > 0 {
            self.game_paths = game_paths;
        }
        if input_mappings.len() > 0 {
            self.input_mappings = input_mappings;
        }
        if window_layout.as_str().unicode_len() > 0 {
            self.window_layout = window_layout;
        }
        if network_ports.len() > 0 {
            self.network_ports = network_ports;
        }
        self.use_proton = use_proton;
    }
}

/// Merging a configuration with itself leaves it unchanged.
pub proof fn merge_with_self_is_identity(c: Config)
    ensures
        merged(c, c) == c,
{
}

/// Merging the same configuration a second time changes nothing more.
pub proof fn merge_is_idempotent(a: Config, b: Config)
    ensures
        merged(merged(a, b), b) == merged(a, b),
{
}

/// A configuration without a game path is always rejected for that reason,
/// whatever is on disk.
pub proof fn no_game_path_is_rejected(c: Config, first_missing: Option<int>)
    requires
        c.game_paths@.len() == 0,
    ensures
        validation_outcome(c, first_missing) == Some(ValidationError::MissingGamePath),
{
}

proof fn lemma_no_low_port(ports: Seq<u16>, i: int)
    requires
        0 <= i <= ports.len(),
        low_port_from(ports, i) is None,
    ensures
        forall|j: int| i <= j < ports.len() ==> ports[j] >= 1024,
    decreases ports.len() - i,
{
    if i < ports.len() {
        lemma_no_low_port(ports, i + 1);
    }
}

/// A configuration that passes validation names a game whose paths all
/// exist, has between 1 and MAX_INSTANCES players, and uses only ports from
/// 1024 up.
pub proof fn accepted_configuration_is_sound(c: Config, first_missing: Option<int>)
    requires
        validation_outcome(c, first_missing) is None,
    ensures
        c.game_paths@.len() > 0,
        first_missing is None,
        1 <= c.input_mappings@.len() <= MAX_INSTANCES,
        forall|j: int| 0 <= j < c.network_ports@.len() ==> c.network_ports@[j] >= 1024,
{
    lemma_no_low_port(c.network_ports@, 0);
}

} // verus!
