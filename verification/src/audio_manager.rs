//! Per-instance audio routing: the virtual sinks created for each game
//! instance and the PulseAudio / PipeWire commands that create, route and
//! remove them. Running the commands happens outside the library.

use std::collections::HashMap;
use vstd::prelude::*;
use crate::errors::HydraError;
use crate::text::{concat, decimal, owned, strings_view, with_number};

verus! {

/// The sound server in use.
#[derive(Debug, Clone, Copy, PartialEq, Eq, Structural)]
pub enum AudioSystem {
    PulseAudio,
    PipeWire,
    ALSA,
}

/// The sound server in use, from which command-line tools start: PipeWire
/// when `pw-cli` runs, else PulseAudio when `pactl` runs, else ALSA.
pub fn choose_audio_system(pw_cli_runs: bool, pactl_runs: bool) -> (s: AudioSystem)
    ensures
        pw_cli_runs ==> s == AudioSystem::PipeWire,
        !pw_cli_runs && pactl_runs ==> s == AudioSystem::PulseAudio,
        !pw_cli_runs && !pactl_runs ==> s == AudioSystem::ALSA,
{
    if pw_cli_runs {
        AudioSystem::PipeWire
    } else if pactl_runs {
        AudioSystem::PulseAudio
    } else {
        AudioSystem::ALSA
    }
}

/// A command to run: program and arguments.
pub struct AudioCommand {
    pub program: String,
    pub args: Vec<String>,
}

/// The name of the virtual sink of instance `i`.
pub open spec fn sink_name(i: nat) -> Seq<char> {
    "hydra_game_"@ + decimal(i)
}

/// The arguments that create the sink of instance `i`, for the sound
/// servers that support virtual sinks.
pub open spec fn sink_creation(system: AudioSystem, i: nat) -> Option<(Seq<char>, Seq<Seq<char>>)> {
    match system {
        AudioSystem::PulseAudio => Some((
            "pactl"@,
            seq![
                "load-module"@,
                "module-null-sink"@,
                "sink_name="@ + sink_name(i),
                "sink_properties=device.description=\""@ + "Hydra Co-op Game Instance "@ + decimal(i) + "\""@,
            ],
        )),
        AudioSystem::PipeWire => Some((
            "pw-cli"@,
            seq![
                "create-node"@,
                "adapter"@,
                "{\"factory.name\":\"support.null-audio-sink\",\"node.name\":\""@ + sink_name(i) + "\"}"@,
            ],
        )),
        AudioSystem::ALSA => None,
    }
}

/// How the sink commands of the first `k` instances went, in order,
/// starting from the recorded sinks `start`. `outcomes[i]` is what running
/// the command of instance `i` gave: whether it exited with success, or the
/// error that kept it from being run; an instance without an outcome had no
/// command run. A successful command records the sink of its instance,
/// replacing an earlier one; a failed one records nothing; the first
/// command that could not be run stops the work with its error, keeping the
/// sinks recorded before it. Nothing is run or recorded under ALSA.
pub open spec fn sink_run(
    start: Map<usize, Seq<char>>,
    system: AudioSystem,
    outcomes: Seq<Result<bool, std::io::Error>>,
    k: int,
) -> Result<Map<usize, Seq<char>>, (std::io::Error, Map<usize, Seq<char>>)>
    decreases k,
{
    if k <= 0 || system == AudioSystem::ALSA {
        Ok(start)
    } else {
        match sink_run(start, system, outcomes, k - 1) {
            Err(x) => Err(x),
            Ok(m) => if k - 1 < outcomes.len() {
                match outcomes[k - 1] {
                    Ok(true) => Ok(m.insert((k - 1) as usize, sink_name((k - 1) as nat))),
                    Ok(false) => Ok(m),
                    Err(e) => Err((e, m)),
                }
            } else {
                Ok(m)
            },
        }
    }
}

/// Once a sink command could not be run, the later instances change
/// nothing: the work stopped there.
proof fn lemma_sink_run_stops(
    start: Map<usize, Seq<char>>,
    system: AudioSystem,
    outcomes: Seq<Result<bool, std::io::Error>>,
    k: int,
    n: int,
)
    requires
        k <= n,
        sink_run(start, system, outcomes, k) is Err,
    ensures
        sink_run(start, system, outcomes, n) == sink_run(start, system, outcomes, k),
    decreases n - k,
{
    if k < n {
        lemma_sink_run_stops(start, system, outcomes, k, n - 1);
    }
}

/// When every sink command could be run, each instance whose command
/// succeeded has its sink recorded, and every other entry is as before.
pub proof fn created_sinks_are_recorded(
    start: Map<usize, Seq<char>>,
    system: AudioSystem,
    outcomes: Seq<Result<bool, std::io::Error>>,
    n: usize,
)
    requires
        system != AudioSystem::ALSA,
        forall|j: int| 0 <= j < n && j < outcomes.len() ==> (#[trigger] outcomes[j]) is Ok,
    ensures
        sink_run(start, system, outcomes, n as int) is Ok,
        forall|i: usize|
            #![trigger outcomes[i as int]]
            i < n && i < outcomes.len() && outcomes[i as int] == Ok::<bool, std::io::Error>(true) ==> {
                let m = sink_run(start, system, outcomes, n as int)->Ok_0;
                m.contains_key(i) && m[i] == sink_name(i as nat)
            },
        forall|i: usize|
            #![trigger outcomes[i as int]]
            !(i < n && i < outcomes.len() && outcomes[i as int] == Ok::<bool, std::io::Error>(true)) ==> {
                let m = sink_run(start, system, outcomes, n as int)->Ok_0;
                m.contains_key(i) == start.contains_key(i) && (start.contains_key(i) ==> m[i] == start[i])
            },
    decreases n,
{
    if n > 0 {
        created_sinks_are_recorded(start, system, outcomes, (n - 1) as usize);
        let prev = sink_run(start, system, outcomes, n - 1)->Ok_0;
        let cur = sink_run(start, system, outcomes, n as int)->Ok_0;
        let made = n - 1 < outcomes.len() && outcomes[n - 1] == Ok::<bool, std::io::Error>(true);
        if n - 1 < outcomes.len() {
            assert(outcomes[n - 1] is Ok);
        }
        assert(cur == if made { prev.insert((n - 1) as usize, sink_name((n - 1) as nat)) } else { prev });
        assert forall|i: usize|
            i < n && i < outcomes.len() && outcomes[i as int] == Ok::<bool, std::io::Error>(true) implies
                cur.contains_key(i) && cur[i] == sink_name(i as nat) by {
            if i < n - 1 {
                assert(prev.contains_key(i) && prev[i] == sink_name(i as nat));
            } else {
                assert(i == (n - 1) as usize);
            }
        }
        assert forall|i: usize|
            !(i < n && i < outcomes.len() && outcomes[i as int] == Ok::<bool, std::io::Error>(true)) implies
                cur.contains_key(i) == start.contains_key(i) && (start.contains_key(i) ==> cur[i] == start[i]) by {
            assert(!(i < n - 1 && i < outcomes.len() && outcomes[i as int] == Ok::<bool, std::io::Error>(true)));
            if i == n - 1 {
                assert(!made);
            }
        }
    }
}

/// Keeps one virtual sink per game instance.
pub struct AudioManager {
    virtual_sinks: HashMap<usize, String>,
    audio_system: AudioSystem,
}

impl AudioManager {
    /// The recorded sinks: the sink name of each instance that has one.
    pub closed spec fn sinks(&self) -> Map<usize, Seq<char>> {
        self.virtual_sinks@.map_values(|s: String| s@)
    }

    /// The sound server in use.
    pub closed spec fn system(&self) -> AudioSystem {
        self.audio_system
    }

    /// A manager for the given sound server, with no sinks yet. Always
    /// succeeds.
    pub fn new(audio_system: AudioSystem) -> (r: Result<Self, HydraError>)
        ensures
            r matches Ok(m) && m.sinks() == Map::<usize, Seq<char>>::empty() && m.system() == audio_system,
    {
        let m = AudioManager { virtual_sinks: HashMap::new(), audio_system };
        assert(m.sinks() =~= Map::<usize, Seq<char>>::empty());
        Ok(m)
    }

    /// The sound server in use.
    pub fn audio_system(&self) -> (s: AudioSystem)
        ensures
            s == self.system(),
    {
        self.audio_system
    }

    /// The command that creates the virtual sink of instance `i`, or `None`
    /// under ALSA, which has no virtual sinks (see `sink_creation`).
    pub fn sink_command(&self, i: usize) -> (c: Option<AudioCommand>)
        ensures
            match c {
                Some(cmd) => sink_creation(self.system(), i as nat) == Some((cmd.program@, strings_view(cmd.args@))),
                None => sink_creation(self.system(), i as nat) is None,
            },
    {
        let name = with_number("hydra_game_", i as u64);
        match self.audio_system {
            AudioSystem::PulseAudio => {
                let description = with_number("Hydra Co-op Game Instance ", i as u64);
                let mut props = owned("sink_properties=device.description=\"");
                props.append(description.as_str());
                props.append("\"");
                assert(props@ =~= "sink_properties=device.description=\""@ + "Hydra Co-op Game Instance "@
                    + decimal(i as nat) + "\""@);
                let args = vec![
                    owned("load-module"),
                    owned("module-null-sink"),
                    concat("sink_name=", name.as_str()),
                    props,
                ];
                let cmd = AudioCommand { program: owned("pactl"), args };
                let ghost expected = sink_creation(self.system(), i as nat)->0;
                assert(strings_view(cmd.args@) =~= expected.1);
                Some(cmd)
            },
            AudioSystem::PipeWire => {
                let mut node = owned("{\"factory.name\":\"support.null-audio-sink\",\"node.name\":\"");
                node.append(name.as_str());
                node.append("\"}");
                let args = vec![owned("create-node"), owned("adapter"), node];
                let cmd = AudioCommand { program: owned("pw-cli"), args };
                let ghost expected = sink_creation(self.system(), i as nat)->0;
                assert(strings_view(cmd.args@) =~= expected.1);
                Some(cmd)
            },
            AudioSystem::ALSA => None,
        }
    }

    /// Records the sink of instance `i` under its name.
    fn record_sink(&mut self, i: usize)
        ensures
            final(self).system() == old(self).system(),
            final(self).sinks() == old(self).sinks().insert(i, sink_name(i as nat)),
    {
        let name = with_number("hydra_game_", i as u64);
        let ghost before = self.virtual_sinks@;
        self.virtual_sinks.insert(i, name);
        assert(self.sinks() =~= before.map_values(|s: String| s@).insert(i, sink_name(i as nat)));
    }

    /// Records the virtual sinks of `num_instances` instances, given what
    /// running the command from `sink_command` of each gave, in order (see
    /// `sink_run`): `Ok` unless a command could not be run, in which case
    /// that error comes back as `HydraError::Io`.
    pub fn create_virtual_sinks(
        &mut self,
        num_instances: usize,
        outcomes: Vec<Result<bool, std::io::Error>>,
    ) -> (r: Result<(), HydraError>)
        ensures
            final(self).system() == old(self).system(),
            match sink_run(old(self).sinks(), old(self).system(), outcomes@, num_instances as int) {
                Ok(m) => r is Ok && final(self).sinks() == m,
                Err((e, m)) => r == Err::<(), HydraError>(HydraError::Io(e)) && final(self).sinks() == m,
            },
    {
        if self.audio_system == AudioSystem::ALSA {
            return Ok(());
        }
        let ghost start = self.sinks();
        let ghost all = outcomes@;
        let mut pending = outcomes;
        let mut i: usize = 0;
        while i < num_instances
            invariant
                self.system() == old(self).system(),
                self.system() != AudioSystem::ALSA,
                start == old(self).sinks(),
                all == pending@,
                all == outcomes@,
                i <= num_instances,
                sink_run(start, self.system(), all, i as int) == Ok::<
                    Map<usize, Seq<char>>,
                    (std::io::Error, Map<usize, Seq<char>>),
                >(self.sinks()),
            decreases num_instances - i,
        {
            if i < pending.len() {
                let failed = pending[i].is_err();
                if failed {
                    let o = pending.remove(i);
                    match o {
                        Err(e) => {
                            proof {
                                assert(all[i as int] == Err::<bool, std::io::Error>(e));
                                assert(sink_run(start, self.system(), all, i + 1) == Err::<
                                    Map<usize, Seq<char>>,
                                    (std::io::Error, Map<usize, Seq<char>>),
                                >((e, self.sinks())));
                                lemma_sink_run_stops(start, self.system(), all, i + 1, num_instances as int);
                            }
                            return Err(HydraError::Io(e));
                        },
                        Ok(_) => {
                            proof {
                                assert(false);
                            }
                            return Ok(());
                        },
                    }
                }
                let ok = match &pending[i] {
                    Ok(b) => *b,
                    Err(_) => false,
                };
                if ok {
                    self.record_sink(i);
                }
            }
            i = i + 1;
        }
        Ok(())
    }

    /// The shell command that moves the audio of process `game_pid` to the
    /// sink of instance `instance_id`: only under PulseAudio and when that
    /// instance has a sink; `None` otherwise.
    pub fn route_command(&self, instance_id: usize, game_pid: u32) -> (c: Option<AudioCommand>)
        ensures
            match c {
                Some(cmd) => self.system() == AudioSystem::PulseAudio && self.sinks().contains_key(instance_id)
                    && cmd.program@ == "bash"@ && strings_view(cmd.args@) == seq![
                    "-c"@,
                    "pactl list short sink-inputs | grep "@ + decimal(game_pid as nat)
                        + " | cut -f1 | xargs -I{} pactl move-sink-input {} "@ + self.sinks()[instance_id],
                ],
                None => self.system() != AudioSystem::PulseAudio || !self.sinks().contains_key(instance_id),
            },
    {
        if self.audio_system != AudioSystem::PulseAudio {
            return None;
        }
        match self.virtual_sinks.get(&instance_id) {
            Some(sink) => {
                let mut script = with_number("pactl list short sink-inputs | grep ", game_pid as u64);
                script.append(" | cut -f1 | xargs -I{} pactl move-sink-input {} ");
                script.append(sink.as_str());
                let cmd = AudioCommand { program: owned("bash"), args: vec![owned("-c"), script] };
                assert(strings_view(cmd.args@) =~= seq![
                    "-c"@,
                    "pactl list short sink-inputs | grep "@ + decimal(game_pid as nat)
                        + " | cut -f1 | xargs -I{} pactl move-sink-input {} "@ + self.sinks()[instance_id],
                ]);
                Some(cmd)
            },
            None => None,
        }
    }

    /// The commands that remove the sinks, one per sink, in the order the
    /// map of sinks is walked (which the map does not fix): PulseAudio
    /// unloads a null-sink module, PipeWire destroys the node of each sink
    /// by name, ALSA has nothing to remove.
    pub fn cleanup_commands(&self) -> (cmds: Vec<AudioCommand>)
        ensures
            self.system() == AudioSystem::ALSA ==> cmds@.len() == 0,
            self.system() != AudioSystem::ALSA ==> cmds@.len() == self.sinks().len(),
            self.system() == AudioSystem::PulseAudio ==> forall|k: int| 0 <= k < cmds@.len() ==>
                (#[trigger] cmds@[k]).program@ == "pactl"@
                && strings_view(cmds@[k].args@) == seq!["unload-module"@, "module-null-sink"@],
            self.system() == AudioSystem::PipeWire ==> exists|order: Seq<usize>|
                order.len() == cmds@.len() && order.no_duplicates() && order.to_set() == self.sinks().dom()
                && forall|k: int| 0 <= k < cmds@.len() ==>
                (#[trigger] cmds@[k]).program@ == "pw-cli"@
                && strings_view(cmds@[k].args@) == seq!["destroy"@, self.sinks()[order[k]]],
    {
        let mut cmds: Vec<AudioCommand> = Vec::new();
        if self.audio_system == AudioSystem::ALSA {
            return cmds;
        }
        proof {
            vstd::std_specs::hash::axiom_spec_keys_iter(&self.virtual_sinks);
        }
        let ghost mut order: Seq<usize> = Seq::empty();
        for key in it: self.virtual_sinks.keys()
            invariant
                self.system() != AudioSystem::ALSA,
                cmds@.len() == it.index(),
                order.len() == it.index(),
                it.seq().len() == self.virtual_sinks@.dom().len(),
                it.seq().no_duplicates(),
                it.seq().unref().to_set() == self.virtual_sinks@.dom(),
                forall|t: int| 0 <= t < order.len() ==> order[t] == *it.seq()[t],
                self.system() == AudioSystem::PulseAudio ==> forall|t: int| 0 <= t < cmds@.len() ==>
                    (#[trigger] cmds@[t]).program@ == "pactl"@
                    && strings_view(cmds@[t].args@) == seq!["unload-module"@, "module-null-sink"@],
                self.system() == AudioSystem::PipeWire ==> forall|t: int| 0 <= t < cmds@.len() ==>
                    (#[trigger] cmds@[t]).program@ == "pw-cli"@
                    && strings_view(cmds@[t].args@) == seq!["destroy"@, self.sinks()[order[t]]],
        {
            let cmd = if self.audio_system == AudioSystem::PulseAudio {
                let c = AudioCommand {
                    program: owned("pactl"),
                    args: vec![owned("unload-module"), owned("module-null-sink")],
                };
                assert(strings_view(c.args@) =~= seq!["unload-module"@, "module-null-sink"@]);
                c
            } else {
                let name = match self.virtual_sinks.get(key) {
                    Some(n) => n.clone(),
                    None => String::new(),
                };
                AudioCommand { program: owned("pw-cli"), args: vec![owned("destroy"), name] }
            };
            cmds.push(cmd);
            proof {
                order = order.push(*key);
            }
        }
        proof {
            assert(self.sinks().dom() =~= self.virtual_sinks@.dom());
        }
        cmds
    }
}

} // verus!
