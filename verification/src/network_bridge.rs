//! The virtual network bridge that connects game instances: the bridge
//! takes 192.168.100.1 and the TAP interface of instance `i` is
//! `hydra_tap_<i>` at 192.168.100.<i+2>. The library builds the `ip`
//! commands; running them happens outside it.

use vstd::prelude::*;
use crate::text::{decimal, owned, strings_view, with_number};

verus! {

/// The address, with prefix length, given to the bridge.
pub fn bridge_address() -> (r: String)
    ensures
        r@ == "192.168.100.1/24"@,
{
    crate::text::owned("192.168.100.1/24")
}

/// The name of the TAP interface of instance `i`.
pub fn tap_interface_name(i: usize) -> (r: String)
    ensures
        r@ == "hydra_tap_"@ + decimal(i as nat),
{
    with_number("hydra_tap_", i as u64)
}

/// The address, with prefix length, of the TAP interface of instance `i`.
pub fn tap_address(i: usize) -> (r: String)
    requires
        i + 2 <= u64::MAX,
    ensures
        r@ == "192.168.100."@ + decimal((i + 2) as nat) + "/24"@,
{
    let mut s = with_number("192.168.100.", (i as u64) + 2);
    s.append("/24");
    s
}


/// The arguments of the `ip` commands that create the bridge `bridge` and
/// bring it up with its address, in order.
pub open spec fn bridge_setup_args(bridge: Seq<char>) -> Seq<Seq<Seq<char>>> {
    seq![
        seq!["link"@, "add"@, "name"@, bridge, "type"@, "bridge"@],
        seq!["link"@, "set"@, "dev"@, bridge, "up"@],
        seq!["addr"@, "add"@, "192.168.100.1/24"@, "dev"@, bridge],
    ]
}

/// The arguments of the `ip` commands that create the TAP interface of
/// instance `i`, attach it to the bridge, bring it up and give it its
/// address, in order.
pub open spec fn tap_setup_args(bridge: Seq<char>, i: nat) -> Seq<Seq<Seq<char>>> {
    let tap = "hydra_tap_"@ + decimal(i);
    seq![
        seq!["tuntap"@, "add"@, "dev"@, tap, "mode"@, "tap"@],
        seq!["link"@, "set"@, "dev"@, tap, "master"@, bridge],
        seq!["link"@, "set"@, "dev"@, tap, "up"@],
        seq!["addr"@, "add"@, "192.168.100."@ + decimal(i + 2) + "/24"@, "dev"@, tap],
    ]
}

/// The arguments of the `ip` commands that create the bridge (see
/// `bridge_setup_args`).
pub fn bridge_setup_commands(bridge: &str) -> (cmds: Vec<Vec<String>>)
    ensures
        cmds@.len() == 3,
        forall|k: int| 0 <= k < 3 ==> strings_view(#[trigger] cmds@[k]@) == bridge_setup_args(bridge@)[k],
{
    let cmds = vec![
        vec![owned("link"), owned("add"), owned("name"), owned(bridge), owned("type"), owned("bridge")],
        vec![owned("link"), owned("set"), owned("dev"), owned(bridge), owned("up")],
        vec![owned("addr"), owned("add"), bridge_address(), owned("dev"), owned(bridge)],
    ];
    assert(strings_view(cmds@[0]@) =~= bridge_setup_args(bridge@)[0]);
    assert(strings_view(cmds@[1]@) =~= bridge_setup_args(bridge@)[1]);
    assert(strings_view(cmds@[2]@) =~= bridge_setup_args(bridge@)[2]);
    cmds
}

/// The arguments of the `ip` commands that set up the TAP interface of
/// instance `i` (see `tap_setup_args`).
pub fn tap_setup_commands(bridge: &str, i: usize) -> (cmds: Vec<Vec<String>>)
    requires
        i + 2 <= u64::MAX,
    ensures
        cmds@.len() == 4,
        forall|k: int| 0 <= k < 4 ==> strings_view(#[trigger] cmds@[k]@) == tap_setup_args(bridge@, i as nat)[k],
{
    let cmds = vec![
        vec![owned("tuntap"), owned("add"), owned("dev"), tap_interface_name(i), owned("mode"), owned("tap")],
        vec![owned("link"), owned("set"), owned("dev"), tap_interface_name(i), owned("master"), owned(bridge)],
        vec![owned("link"), owned("set"), owned("dev"), tap_interface_name(i), owned("up")],
        vec![owned("addr"), owned("add"), tap_address(i), owned("dev"), tap_interface_name(i)],
    ];
    let ghost args = tap_setup_args(bridge@, i as nat);
    assert(strings_view(cmds@[0]@) =~= args[0]);
    assert(strings_view(cmds@[1]@) =~= args[1]);
    assert(strings_view(cmds@[2]@) =~= args[2]);
    assert(strings_view(cmds@[3]@) =~= args[3]);
    cmds
}

/// The arguments of the `ip` commands that remove the TAP interfaces, in
/// order, then the bridge.
pub fn cleanup_commands(bridge: &str, taps: &Vec<String>) -> (cmds: Vec<Vec<String>>)
    ensures
        cmds@.len() == taps@.len() + 1,
        forall|k: int| 0 <= k < taps@.len() ==> strings_view(#[trigger] cmds@[k]@) == seq![
            "link"@,
            "delete"@,
            taps@[k]@,
        ],
        strings_view(cmds@[taps@.len() as int]@) == seq!["link"@, "delete"@, bridge@],
{
    let mut cmds: Vec<Vec<String>> = Vec::new();
    let mut k: usize = 0;
    while k < taps.len()
        invariant
            k <= taps@.len(),
            cmds@.len() == k,
            forall|t: int| 0 <= t < k ==> strings_view(#[trigger] cmds@[t]@) == seq![
                "link"@,
                "delete"@,
                taps@[t]@,
            ],
        decreases taps.len() - k,
    {
        let c = vec![owned("link"), owned("delete"), taps[k].clone()];
        assert(strings_view(c@) =~= seq!["link"@, "delete"@, taps@[k as int]@]);
        cmds.push(c);
        k = k + 1;
    }
    let last = vec![owned("link"), owned("delete"), owned(bridge)];
    assert(strings_view(last@) =~= seq!["link"@, "delete"@, bridge@]);
    cmds.push(last);
    cmds
}

} // verus!
