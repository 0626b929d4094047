//! Preparing a launch session from the user's choices: checking the number
//! of players, completing the configuration for command-line use, turning
//! device names into input assignments, pairing game ports with relay
//! ports, and the defaults the graphical front end fills in.

use std::path::PathBuf;
use vstd::prelude::*;
use crate::config::{low_port_from, validation_outcome, Config};
use crate::defaults::MAX_INSTANCES;
use crate::errors::HydraError;
use crate::input_mux::{DeviceIdentifier, InputAssignment};
use crate::text::{decimal, owned, str_eq, strings_view, with_number};

verus! {

/// Checks the number of instances requested: at least 1 and at most
/// `MAX_INSTANCES`, with a message saying which bound was broken.
pub fn check_instance_count(num_instances: usize) -> (r: Result<(), HydraError>)
    ensures
        num_instances == 0 ==> (r matches Err(HydraError::Validation(m))
            && m@ == "Number of instances must be at least 1"@),
        num_instances > MAX_INSTANCES ==> (r matches Err(HydraError::Validation(m))
            && m@ == "Number of instances ("@ + decimal(num_instances as nat) + ") exceeds maximum ("@
            + decimal(MAX_INSTANCES as nat) + ")"@),
        1 <= num_instances <= MAX_INSTANCES ==> r is Ok,
{
    if num_instances == 0 {
        return Err(HydraError::validation(owned("Number of instances must be at least 1")));
    }
    if num_instances > MAX_INSTANCES {
        let mut m = with_number("Number of instances (", num_instances as u64);
        m.append(") exceeds maximum (");
        crate::text::push_decimal(&mut m, MAX_INSTANCES as u64);
        m.append(")");
        return Err(HydraError::validation(m));
    }
    Ok(())
}

/// The first port that command-line use adds: one after the last
/// configured port, or 7777 when there is none.
pub open spec fn cli_port_start(ports: Seq<u16>) -> int {
    if ports.len() == 0 { 7777 } else { ports.last() + 1 }
}

/// `b` is `a` completed for launching `game_path` with `n` players from
/// the command line (see `fit_config_to_cli`).
pub open spec fn cli_fitted(a: Config, b: Config, game_path: PathBuf, n: nat) -> bool {
    &&& b.game_paths@ == seq![game_path]
    &&& a.input_mappings@.len() < n ==> strings_view(b.input_mappings@) == strings_view(a.input_mappings@)
        + Seq::new((n - a.input_mappings@.len()) as nat, |j: int| "Auto-detect"@)
    &&& a.input_mappings@.len() >= n ==> b.input_mappings == a.input_mappings
    &&& a.network_ports@.len() < n ==> b.network_ports@ == a.network_ports@ + Seq::new(
        (n - a.network_ports@.len()) as nat,
        |j: int| (cli_port_start(a.network_ports@) + j) as u16,
    )
    &&& a.network_ports@.len() >= n ==> b.network_ports == a.network_ports
    &&& b.window_layout == a.window_layout
    &&& b.use_proton == a.use_proton
}

/// Completes a configuration for launching `game_path` with
/// `num_instances` players from the command line: the game becomes the only
/// game path; missing input mappings are filled with "Auto-detect"; when
/// there are fewer ports than players, the missing ones count up from the
/// port after the last configured one (from 7777 when there is none), so
/// that each added player has a game port of its own: the relay routes the
/// traffic for each instance's configured game port to that instance, one
/// route per port. Layout and Proton flag are kept. Ports past 65535 are outside what is
/// accepted.
pub fn fit_config_to_cli(config: &mut Config, game_path: PathBuf, num_instances: usize)
    requires
        old(config).network_ports@.len() < num_instances ==> cli_port_start(old(config).network_ports@) + (
        num_instances - old(config).network_ports@.len()) - 1 <= u16::MAX,
    ensures
        cli_fitted(*old(config), *final(config), game_path, num_instances as nat),
{
    config.game_paths = vec![game_path];
    let ghost m0 = strings_view(config.input_mappings@);
    let ghost m_len0 = config.input_mappings@.len();
    if config.input_mappings.len() < num_instances {
        while config.input_mappings.len() < num_instances
            invariant
                m_len0 < num_instances,
                m_len0 <= config.input_mappings@.len() <= num_instances,
                strings_view(config.input_mappings@) == m0 + Seq::new(
                    (config.input_mappings@.len() - m_len0) as nat,
                    |j: int| "Auto-detect"@,
                ),
                config.game_paths@ == seq![game_path],
                config.network_ports == old(config).network_ports,
                config.window_layout == old(config).window_layout,
                config.use_proton == old(config).use_proton,
            decreases num_instances - config.input_mappings.len(),
        {
            let ghost before = strings_view(config.input_mappings@);
            config.input_mappings.push(owned("Auto-detect"));
            assert(strings_view(config.input_mappings@) =~= before.push("Auto-detect"@));
            assert(strings_view(config.input_mappings@) =~= m0 + Seq::new(
                (config.input_mappings@.len() - m_len0) as nat,
                |j: int| "Auto-detect"@,
            ));
        }
    }
    let ghost p0 = config.network_ports@;
    if config.network_ports.len() < num_instances {
        let len0 = config.network_ports.len();
        let start: u16 = if len0 == 0 {
            7777
        } else {
            config.network_ports[len0 - 1] + 1
        };
        while config.network_ports.len() < num_instances
            invariant
                p0.len() == len0,
                len0 < num_instances,
                start == cli_port_start(p0),
                cli_port_start(p0) + (num_instances - len0) - 1 <= u16::MAX,
                p0.len() <= config.network_ports@.len() <= num_instances,
                config.network_ports@ == p0 + Seq::new(
                    (config.network_ports@.len() - p0.len()) as nat,
                    |j: int| (cli_port_start(p0) + j) as u16,
                ),
                config.game_paths@ == seq![game_path],
                config.input_mappings == old(config).input_mappings || m_len0 < num_instances,
                m_len0 < num_instances ==> strings_view(config.input_mappings@) == m0 + Seq::new(
                    (num_instances - m_len0) as nat,
                    |j: int| "Auto-detect"@,
                ),
                m_len0 >= num_instances ==> config.input_mappings == old(config).input_mappings,
                config.window_layout == old(config).window_layout,
                config.use_proton == old(config).use_proton,
            decreases num_instances - config.network_ports.len(),
        {
            let j = config.network_ports.len() - len0;
            config.network_ports.push(start + j as u16);
            assert(config.network_ports@ =~= p0 + Seq::new(
                (config.network_ports@.len() - p0.len()) as nat,
                |j: int| (cli_port_start(p0) + j) as u16,
            ));
        }
    }
    proof {
        let n = num_instances as nat;
        if old(config).input_mappings@.len() < n {
            assert(strings_view(config.input_mappings@) =~= strings_view(old(config).input_mappings@) + Seq::new(
                (n - old(config).input_mappings@.len()) as nat,
                |j: int| "Auto-detect"@,
            ));
        }
        if old(config).network_ports@.len() < n {
            assert(config.network_ports@ =~= old(config).network_ports@ + Seq::new(
                (n - old(config).network_ports@.len()) as nat,
                |j: int| (cli_port_start(old(config).network_ports@) + j) as u16,
            ));
        }
        assert(config.game_paths@ =~= seq![game_path]);
    }
}

/// The words that ask for an automatically detected device.
pub open spec fn is_auto_word(name: Seq<char>) -> bool {
    name == "Auto-detect"@ || name == "auto"@ || name == "auto-detect"@
}

/// Index of the first available device called `name` (the length when
/// there is none).
pub open spec fn device_named_from(available: Seq<DeviceIdentifier>, name: Seq<char>, i: int) -> int
    decreases available.len() - i,
{
    if i < 0 || i >= available.len() {
        available.len() as int
    } else if available[i].name@ == name {
        i
    } else {
        device_named_from(available, name, i + 1)
    }
}

/// The assignment of player `i` from the device names given on the command
/// line: an automatic word, or no name at all, asks for auto-detection; a
/// name picks the first available device of that name, and no input when
/// none has it.
pub open spec fn assignment_for(names: Seq<Seq<char>>, available: Seq<DeviceIdentifier>, i: int) -> InputAssignment {
    if i >= names.len() || is_auto_word(names[i]) {
        InputAssignment::AutoDetect
    } else {
        let k = device_named_from(available, names[i], 0);
        if k < available.len() {
            InputAssignment::Device(available[k])
        } else {
            InputAssignment::NoDevice
        }
    }
}

/// Index of the first available device called `name`.
fn find_device_named(available: &Vec<DeviceIdentifier>, name: &str) -> (k: usize)
    ensures
        k == device_named_from(available@, name@, 0),
        k <= available@.len(),
{
    let mut k: usize = 0;
    while k < available.len()
        invariant
            k <= available@.len(),
            device_named_from(available@, name@, 0) == device_named_from(available@, name@, k as int),
        decreases available.len() - k,
    {
        if str_eq(available[k].name.as_str(), name) {
            return k;
        }
        k = k + 1;
    }
    k
}

/// The input assignments of `num_instances` players from device names
/// (see `assignment_for`), paired with player indices 0, 1, ...
pub fn resolve_device_names(
    device_names: &Vec<String>,
    available: &Vec<DeviceIdentifier>,
    num_instances: usize,
) -> (r: Vec<(usize, InputAssignment)>)
    ensures
        r@.len() == num_instances,
        forall|i: int| 0 <= i < num_instances ==> (#[trigger] r@[i]).0 == i && r@[i].1 == assignment_for(
            strings_view(device_names@),
            available@,
            i,
        ),
{
    let mut r: Vec<(usize, InputAssignment)> = Vec::new();
    let mut i: usize = 0;
    while i < num_instances
        invariant
            i <= num_instances,
            r@.len() == i,
            forall|k: int| 0 <= k < i ==> (#[trigger] r@[k]).0 == k && r@[k].1 == assignment_for(
                strings_view(device_names@),
                available@,
                k,
            ),
        decreases num_instances - i,
    {
        let a = if i >= device_names.len() {
            InputAssignment::AutoDetect
        } else {
            let name = device_names[i].as_str();
            proof {
                reveal_strlit("Auto-detect");
                reveal_strlit("auto");
                reveal_strlit("auto-detect");
            }
            if str_eq(name, "Auto-detect") || str_eq(name, "auto") || str_eq(name, "auto-detect") {
                InputAssignment::AutoDetect
            } else {
                let k = find_device_named(available, name);
                if k < available.len() {
                    InputAssignment::Device(available[k].clone())
                } else {
                    InputAssignment::NoDevice
                }
            }
        };
        r.push((i, a));
        i = i + 1;
    }
    r
}

/// The (game port, relay port) pairs of the first `n` instances: instance
/// `j` is paired when it has a relay port and a configured game port.
pub open spec fn port_pairs(relay: Seq<Option<u16>>, game: Seq<u16>, n: int) -> Seq<(u16, u16)>
    decreases n,
{
    if n <= 0 {
        Seq::empty()
    } else {
        let prev = port_pairs(relay, game, n - 1);
        let j = n - 1;
        if j < relay.len() && relay[j] is Some && j < game.len() {
            prev.push((game[j], relay[j]->0))
        } else {
            prev
        }
    }
}

/// Which traffic the relay forwards: for each instance with a relay port
/// and a game port, packets from its game port go to its relay port (see
/// `port_pairs`).
pub fn port_mappings(num_instances: usize, relay_ports: &Vec<Option<u16>>, game_ports: &Vec<u16>) -> (r: Vec<(u16, u16)>)
    ensures
        r@ == port_pairs(relay_ports@, game_ports@, num_instances as int),
{
    let mut r: Vec<(u16, u16)> = Vec::new();
    let mut j: usize = 0;
    while j < num_instances
        invariant
            j <= num_instances,
            r@ == port_pairs(relay_ports@, game_ports@, j as int),
        decreases num_instances - j,
    {
        if j < relay_ports.len() && j < game_ports.len() {
            if let Some(p) = relay_ports[j] {
                r.push((game_ports[j], p));
            }
        }
        j = j + 1;
    }
    r
}

/// The ports the graphical front end gives `count` players: 7777, 7778, ...
pub fn player_ports(count: usize) -> (ports: Vec<u16>)
    requires
        count <= 65535 - 7777 + 1,
    ensures
        ports@.len() == count,
        forall|i: int| 0 <= i < count ==> #[trigger] ports@[i] == 7777 + i,
{
    let mut ports: Vec<u16> = Vec::new();
    let mut i: usize = 0;
    while i < count
        invariant
            count <= 65535 - 7777 + 1,
            i <= count,
            ports@.len() == i,
            forall|k: int| 0 <= k < i ==> #[trigger] ports@[k] == 7777 + k,
        decreases count - i,
    {
        ports.push(7777 + i as u16);
        i = i + 1;
    }
    ports
}

/// The input mappings saved by the graphical front end: the choices made,
/// then "Auto-detect" for the remaining players up to `count`.
pub fn padded_input_mappings(chosen: Vec<String>, count: usize) -> (m: Vec<String>)
    ensures
        chosen@.len() >= count ==> strings_view(m@) == strings_view(chosen@),
        chosen@.len() < count ==> strings_view(m@) == strings_view(chosen@) + Seq::new(
            (count - chosen@.len()) as nat,
            |j: int| "Auto-detect"@,
        ),
{
    let mut m = chosen;
    let ghost m0 = strings_view(m@);
    let ghost len0 = m@.len();
    if m.len() < count {
        while m.len() < count
            invariant
                len0 < count,
                len0 <= m@.len() <= count,
                strings_view(m@) == m0 + Seq::new((m@.len() - len0) as nat, |j: int| "Auto-detect"@),
            decreases count - m.len(),
        {
            let ghost before = strings_view(m@);
            m.push(owned("Auto-detect"));
            assert(strings_view(m@) =~= before.push("Auto-detect"@));
            assert(strings_view(m@) =~= m0 + Seq::new((m@.len() - len0) as nat, |j: int| "Auto-detect"@));
        }
    }
    m
}

/// The number of players the graphical front end starts with: the
/// configuration's instance count, kept between 1 and `MAX_INSTANCES`.
pub fn initial_player_count(config: &Config) -> (n: usize)
    ensures
        1 <= n <= MAX_INSTANCES,
        n == if config.instance_count_spec() > MAX_INSTANCES { MAX_INSTANCES as int } else { config.instance_count_spec() },
{
    let c = config.instance_count();
    if c > MAX_INSTANCES { MAX_INSTANCES } else { c }
}

proof fn lemma_high_ports(ports: Seq<u16>, i: int)
    requires
        0 <= i <= ports.len(),
        forall|j: int| 0 <= j < ports.len() ==> ports[j] >= 1024,
    ensures
        low_port_from(ports, i) is None,
    decreases ports.len() - i,
{
    if i < ports.len() {
        lemma_high_ports(ports, i + 1);
    }
}

/// Completing a configuration for the command line makes it pass
/// validation whenever the game exists, the player count is allowed, the
/// configuration had no more input mappings than players allowed, and its
/// ports were all at least 1024 (with the ports added staying within
/// 65535): the game path, the player count and the ports are then all
/// acceptable.
pub proof fn cli_fitted_config_is_valid(a: Config, b: Config, game_path: PathBuf, n: nat)
    requires
        cli_fitted(a, b, game_path, n),
        1 <= n <= MAX_INSTANCES,
        a.input_mappings@.len() <= MAX_INSTANCES,
        forall|j: int| 0 <= j < a.network_ports@.len() ==> a.network_ports@[j] >= 1024,
        a.network_ports@.len() < n ==> cli_port_start(a.network_ports@) + (n - a.network_ports@.len()) - 1
            <= u16::MAX,
    ensures
        validation_outcome(b, None) is None,
{
    assert(b.game_paths@.len() == 1);
    if a.input_mappings@.len() < n {
        assert(strings_view(b.input_mappings@).len() == n);
    }
    if a.network_ports@.len() < n {
        let start = cli_port_start(a.network_ports@);
        assert(start >= 1024) by {
            if a.network_ports@.len() > 0 {
                assert(a.network_ports@.last() == a.network_ports@[a.network_ports@.len() - 1]);
            }
        }
        assert forall|j: int| 0 <= j < b.network_ports@.len() implies b.network_ports@[j] >= 1024 by {
            if j >= a.network_ports@.len() {
                let k = j - a.network_ports@.len();
                assert(b.network_ports@[j] == (start + k) as u16);
                assert(1024 <= start + k <= u16::MAX);
            } else {
                assert(b.network_ports@[j] == a.network_ports@[j]);
            }
        }
    }
    lemma_high_ports(b.network_ports@, 0);
}

/// The ports that command-line use adds all differ from each other and from
/// the configured ports before them, when those are in increasing order.
pub proof fn cli_fitted_ports_are_distinct(a: Config, b: Config, game_path: PathBuf, n: nat, i: int, j: int)
    requires
        cli_fitted(a, b, game_path, n),
        a.network_ports@.len() < n,
        cli_port_start(a.network_ports@) + (n - a.network_ports@.len()) - 1 <= u16::MAX,
        forall|x: int, y: int| 0 <= x < y < a.network_ports@.len() ==> a.network_ports@[x] < a.network_ports@[y],
        0 <= i < j < n,
    ensures
        b.network_ports@[i] < b.network_ports@[j],
{
    let len = a.network_ports@.len() as int;
    let start = cli_port_start(a.network_ports@);
    if len > 0 {
        assert(a.network_ports@.last() == a.network_ports@[len - 1]);
        if i < len {
            assert(a.network_ports@[i] <= a.network_ports@[len - 1]) by {
                if i < len - 1 {
                    assert(a.network_ports@[i] < a.network_ports@[len - 1]);
                }
            }
        }
    }
    if j >= len {
        assert(b.network_ports@[j] == (start + (j - len)) as u16);
    }
    if i >= len {
        assert(b.network_ports@[i] == (start + (i - len)) as u16);
    } else {
        assert(b.network_ports@[i] == a.network_ports@[i]);
        if j < len {
            assert(b.network_ports@[j] == a.network_ports@[j]);
        }
    }
}

} // verus!
