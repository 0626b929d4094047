//! Gamepad classification: which input devices are gamepads, what kind of
//! controller each is, where Steam keeps its configuration, which gamepads
//! go to which player, and per-game controller settings. Enumerating
//! devices and looking for Steam files happens outside the library.

use vstd::prelude::*;
use crate::errors::HydraError;
use crate::input_mux::{DeviceIdView, DeviceIdentifier};
use crate::env_vars::env_view;
use crate::text::{contains, has_substring, lowercase, owned, to_lowercase};

verus! {

/// Kinds of game controller.
#[derive(Debug, Clone, Copy, PartialEq, Eq, Structural)]
pub enum ControllerType {
    Xbox360,
    XboxOne,
    PS4,
    PS5,
    SteamController,
    Generic,
}

/// What a gamepad offers.
#[derive(Debug, Clone, Copy, PartialEq, Eq, Structural)]
pub struct GamepadCapabilities {
    pub has_analog_sticks: bool,
    pub has_triggers: bool,
    pub has_dpad: bool,
    pub button_count: u8,
}

/// A gamepad found among the input devices.
#[derive(Debug)]
pub struct GamepadInfo {
    pub device_id: DeviceIdentifier,
    pub controller_type: ControllerType,
    pub capabilities: GamepadCapabilities,
    pub steam_config_path: Option<String>,
}

/// The value of a gamepad's description.
pub struct GamepadInfoView {
    pub device_id: DeviceIdView,
    pub controller_type: ControllerType,
    pub capabilities: GamepadCapabilities,
    pub steam_config_path: Option<Seq<char>>,
}

impl View for GamepadInfo {
    type V = GamepadInfoView;

    open spec fn view(&self) -> GamepadInfoView {
        GamepadInfoView {
            device_id: self.device_id@,
            controller_type: self.controller_type,
            capabilities: self.capabilities,
            steam_config_path: match self.steam_config_path {
                Some(p) => Some(p@),
                None => None,
            },
        }
    }
}

/// Vendors known to make gamepads: Microsoft, Sony, Valve, Logitech, Logic3
/// and Hori.
pub open spec fn gamepad_vendor(vendor_id: u16) -> bool {
    vendor_id == 0x045e || vendor_id == 0x054c || vendor_id == 0x28de || vendor_id == 0x046d
        || vendor_id == 0x0e6f || vendor_id == 0x0f0d
}

/// A lower-cased device name that mentions a gamepad word.
pub open spec fn gamepad_name(lower: Seq<char>) -> bool {
    ||| has_substring(lower, "gamepad"@)
    ||| has_substring(lower, "controller"@)
    ||| has_substring(lower, "joystick"@)
    ||| has_substring(lower, "xbox"@)
    ||| has_substring(lower, "playstation"@)
    ||| has_substring(lower, "ps4"@)
    ||| has_substring(lower, "ps5"@)
    ||| has_substring(lower, "steam"@)
    ||| has_substring(lower, "8bitdo"@)
    ||| has_substring(lower, "logitech"@)
}

/// A device is taken for a gamepad when its lower-cased name mentions a
/// gamepad word or its vendor makes gamepads.
pub open spec fn is_gamepad(d: DeviceIdView) -> bool {
    gamepad_name(lowercase(d.name)) || gamepad_vendor(d.vendor_id)
}

/// The kind of controller a device is, from its lower-cased name and its
/// vendor and product ids.
pub open spec fn controller_type_from(n: Seq<char>, vendor_id: u16, product_id: u16) -> ControllerType {
    if has_substring(n, "xbox 360"@) || product_id == 0x028e {
        ControllerType::Xbox360
    } else if has_substring(n, "xbox"@) || has_substring(n, "microsoft"@) {
        ControllerType::XboxOne
    } else if has_substring(n, "ps4"@) || has_substring(n, "dualshock 4"@) {
        ControllerType::PS4
    } else if has_substring(n, "ps5"@) || has_substring(n, "dualsense"@) {
        ControllerType::PS5
    } else if has_substring(n, "steam"@) && vendor_id == 0x28de {
        ControllerType::SteamController
    } else {
        ControllerType::Generic
    }
}

/// The kind of controller a device is (see `controller_type_from`), its
/// name lower-cased with `str::to_lowercase`.
pub open spec fn controller_type_of(d: DeviceIdView) -> ControllerType {
    controller_type_from(lowercase(d.name), d.vendor_id, d.product_id)
}

/// The capabilities assumed for every gamepad: sticks, triggers, a d-pad
/// and 14 buttons.
pub open spec fn standard_capabilities() -> GamepadCapabilities {
    GamepadCapabilities { has_analog_sticks: true, has_triggers: true, has_dpad: true, button_count: 14 }
}

/// The lower-case hexadecimal digit for `d` (0 to 15).
pub open spec fn hex_digit(d: int) -> char {
    if d < 10 {
        crate::text::digit_char(d)
    } else if d == 10 {
        'a'
    } else if d == 11 {
        'b'
    } else if d == 12 {
        'c'
    } else if d == 13 {
        'd'
    } else if d == 14 {
        'e'
    } else {
        'f'
    }
}

/// `v` as four lower-case hexadecimal digits, as `{:04x}` formats it.
pub open spec fn hex4(v: u16) -> Seq<char> {
    seq![
        hex_digit((v / 4096) as int),
        hex_digit(((v / 256) % 16) as int),
        hex_digit(((v / 16) % 16) as int),
        hex_digit((v % 16) as int),
    ]
}

/// The name of the Steam Input configuration file of a device:
/// `vvvv_pppp.vdf` with the vendor and product ids in hexadecimal.
pub open spec fn steam_config_name(d: DeviceIdView) -> Seq<char> {
    hex4(d.vendor_id) + "_"@ + hex4(d.product_id) + ".vdf"@
}

/// A one-character string holding the hexadecimal digit `d`.
fn hex_digit_str(d: u16) -> (s: &'static str)
    requires
        d < 16,
    ensures
        s@ == seq![hex_digit(d as int)],
{
    proof {
        reveal_strlit("0");
        reveal_strlit("1");
        reveal_strlit("2");
        reveal_strlit("3");
        reveal_strlit("4");
        reveal_strlit("5");
        reveal_strlit("6");
        reveal_strlit("7");
        reveal_strlit("8");
        reveal_strlit("9");
        reveal_strlit("a");
        reveal_strlit("b");
        reveal_strlit("c");
        reveal_strlit("d");
        reveal_strlit("e");
        reveal_strlit("f");
    }
    let s = if d == 0 { "0" }
    else if d == 1 { "1" }
    else if d == 2 { "2" }
    else if d == 3 { "3" }
    else if d == 4 { "4" }
    else if d == 5 { "5" }
    else if d == 6 { "6" }
    else if d == 7 { "7" }
    else if d == 8 { "8" }
    else if d == 9 { "9" }
    else if d == 10 { "a" }
    else if d == 11 { "b" }
    else if d == 12 { "c" }
    else if d == 13 { "d" }
    else if d == 14 { "e" }
    else { "f" };
    assert(s@ =~= seq![hex_digit(d as int)]);
    s
}

/// Appends `v` as four lower-case hexadecimal digits.
fn push_hex4(s: &mut String, v: u16)
    ensures
        final(s)@ == old(s)@ + hex4(v),
{
    s.append(hex_digit_str(v / 4096));
    s.append(hex_digit_str((v / 256) % 16));
    s.append(hex_digit_str((v / 16) % 16));
    s.append(hex_digit_str(v % 16));
    assert(final(s)@ =~= old(s)@ + hex4(v));
}

/// The list of gamepads with `g` added, replacing an entry for the same
/// device.
pub open spec fn upsert(list: Seq<GamepadInfoView>, g: GamepadInfoView) -> Seq<GamepadInfoView> {
    if exists|i: int| 0 <= i < list.len() && list[i].device_id == g.device_id {
        let i = choose|i: int| 0 <= i < list.len() && list[i].device_id == g.device_id;
        list.update(i, g)
    } else {
        list.push(g)
    }
}

/// The description given to a gamepad device, with the Steam configuration
/// found for it (kept only when Steam Input is enabled).
pub open spec fn gamepad_info(d: DeviceIdView, steam_enabled: bool, steam_config: Option<Seq<char>>) -> GamepadInfoView {
    GamepadInfoView {
        device_id: d,
        controller_type: controller_type_of(d),
        capabilities: standard_capabilities(),
        steam_config_path: if steam_enabled { steam_config } else { None },
    }
}

/// The gamepad list after scanning the first `k` devices: each gamepad
/// device is added in turn.
pub open spec fn scanned(
    start: Seq<GamepadInfoView>,
    devices: Seq<DeviceIdView>,
    configs: Seq<Option<Seq<char>>>,
    steam_enabled: bool,
    k: int,
) -> Seq<GamepadInfoView>
    decreases k,
{
    if k <= 0 {
        start
    } else {
        let prev = scanned(start, devices, configs, steam_enabled, k - 1);
        let d = devices[k - 1];
        if is_gamepad(d) {
            upsert(prev, gamepad_info(d, steam_enabled, if k - 1 < configs.len() { configs[k - 1] } else { None }))
        } else {
            prev
        }
    }
}

/// Manages the gamepads among the input devices.
pub struct GamepadManager {
    gamepads: Vec<GamepadInfo>,
    steam_input_enabled: bool,
}

impl GamepadManager {
    /// The known gamepads, in the order they were found.
    pub closed spec fn gamepads(&self) -> Seq<GamepadInfoView> {
        self.gamepads@.map_values(|g: GamepadInfo| g@)
    }

    /// Whether Steam Input configurations are looked up.
    pub closed spec fn steam_enabled(&self) -> bool {
        self.steam_input_enabled
    }

    /// Every known gamepad is a gamepad device, and none is listed twice.
    pub open spec fn wf(&self) -> bool {
        &&& forall|i: int| 0 <= i < self.gamepads().len() ==> is_gamepad(#[trigger] self.gamepads()[i].device_id)
        &&& forall|i: int, j: int|
            0 <= i < j < self.gamepads().len() ==> self.gamepads()[i].device_id != self.gamepads()[j].device_id
    }

    /// A manager with no gamepads yet; `steam_input_enabled` tells whether
    /// Steam Input is installed.
    pub fn new(steam_input_enabled: bool) -> (m: Self)
        ensures
            m.wf(),
            m.gamepads().len() == 0,
            m.steam_enabled() == steam_input_enabled,
    {
        let m = GamepadManager { gamepads: Vec::new(), steam_input_enabled };
        assert(m.gamepads() =~= Seq::empty());
        m
    }

    /// Whether the vendor id belongs to a known gamepad maker.
    pub fn is_gamepad_vendor_id(&self, vendor_id: u16) -> (b: bool)
        ensures
            b == gamepad_vendor(vendor_id),
    {
        match vendor_id {
            0x045e => true,
            0x054c => true,
            0x28de => true,
            0x046d => true,
            0x0e6f => true,
            0x0f0d => true,
            _ => false,
        }
    }

    /// Whether a device is likely a gamepad (see `is_gamepad`).
    pub fn is_gamepad_device(&self, device_id: &DeviceIdentifier) -> (b: bool)
        ensures
            b == is_gamepad(device_id@),
    {
        let lower = to_lowercase(device_id.name.as_str());
        gamepad_name_matches(lower.as_str()) || self.is_gamepad_vendor_id(device_id.vendor_id)
    }

    /// The kind of controller a device is (see `controller_type_of`).
    pub fn detect_controller_type(&self, device_id: &DeviceIdentifier) -> (t: ControllerType)
        ensures
            t == controller_type_of(device_id@),
    {
        let lower = to_lowercase(device_id.name.as_str());
        controller_type_for(lower.as_str(), device_id.vendor_id, device_id.product_id)
    }

    /// The capabilities of a gamepad: the standard set, since the device
    /// itself is not opened.
    pub fn detect_capabilities(&self, device_id: &DeviceIdentifier) -> (c: GamepadCapabilities)
        ensures
            c == standard_capabilities(),
    {
        GamepadCapabilities { has_analog_sticks: true, has_triggers: true, has_dpad: true, button_count: 14 }
    }

    /// The file name under which Steam keeps a device's controller
    /// configuration (see `steam_config_name`).
    pub fn steam_config_file_name(device_id: &DeviceIdentifier) -> (r: String)
        ensures
            r@ == steam_config_name(device_id@),
    {
        let mut s = String::new();
        push_hex4(&mut s, device_id.vendor_id);
        s.append("_");
        push_hex4(&mut s, device_id.product_id);
        s.append(".vdf");
        assert(s@ =~= steam_config_name(device_id@));
        s
    }

    /// Describes a gamepad device, given the Steam configuration file found
    /// for it (see `gamepad_info`). Always succeeds.
    pub fn analyze_gamepad(&self, device_id: &DeviceIdentifier, steam_config: Option<String>) -> (r: Result<GamepadInfo, HydraError>)
        ensures
            r matches Ok(g) && g@ == gamepad_info(device_id@, self.steam_enabled(), match steam_config {
                Some(p) => Some(p@),
                None => None,
            }),
    {
        let controller_type = self.detect_controller_type(device_id);
        let capabilities = self.detect_capabilities(device_id);
        let steam_config_path = if self.steam_input_enabled {
            steam_config
        } else {
            None
        };
        Ok(GamepadInfo { device_id: device_id.clone(), controller_type, capabilities, steam_config_path })
    }

    /// Adds a gamepad, replacing an entry for the same device.
    fn upsert_gamepad(&mut self, g: GamepadInfo)
        requires
            old(self).wf(),
            is_gamepad(g@.device_id),
        ensures
            final(self).wf(),
            final(self).steam_enabled() == old(self).steam_enabled(),
            final(self).gamepads() == upsert(old(self).gamepads(), g@),
    {
        let ghost before = self.gamepads();
        let mut i: usize = 0;
        while i < self.gamepads.len()
            invariant
                before == self.gamepads(),
                before == old(self).gamepads(),
                self.steam_enabled() == old(self).steam_enabled(),
                self.wf(),
                is_gamepad(g@.device_id),
                i <= self.gamepads@.len(),
                forall|k: int| 0 <= k < i ==> before[k].device_id != g@.device_id,
            decreases self.gamepads.len() - i,
        {
            if self.gamepads[i].device_id.eq(&g.device_id) {
                proof {
                    assert(before[i as int].device_id == g@.device_id);
                    let c = choose|c: int| 0 <= c < before.len() && before[c].device_id == g@.device_id;
                    assert(c == i) by {
                        if c > i {
                            assert(before[i as int].device_id != before[c].device_id);
                        }
                    }
                }
                self.gamepads.set(i, g);
                assert(self.gamepads() =~= before.update(i as int, g@));
                return;
            }
            i = i + 1;
        }
        self.gamepads.push(g);
        assert(self.gamepads() =~= before.push(g@));
    }

    /// Adds the gamepads among `devices` (see `scanned`); `steam_configs[i]`
    /// is the Steam configuration file found for `devices[i]`, if any.
    /// Always succeeds.
    pub fn scan_gamepads(&mut self, devices: &Vec<DeviceIdentifier>, steam_configs: &Vec<Option<String>>) -> (r: Result<(), HydraError>)
        requires
            old(self).wf(),
        ensures
            r is Ok,
            final(self).wf(),
            final(self).steam_enabled() == old(self).steam_enabled(),
            final(self).gamepads() == scanned(
                old(self).gamepads(),
                devices@.map_values(|d: DeviceIdentifier| d@),
                steam_configs@.map_values(|c: Option<String>| match c {
                    Some(p) => Some(p@),
                    None => None,
                }),
                old(self).steam_enabled(),
                devices@.len() as int,
            ),
    {
        let ghost start = self.gamepads();
        let ghost ds = devices@.map_values(|d: DeviceIdentifier| d@);
        let ghost cs = steam_configs@.map_values(|c: Option<String>| match c {
            Some(p) => Some(p@),
            None => None,
        });
        let ghost steam = self.steam_enabled();
        let mut i: usize = 0;
        while i < devices.len()
            invariant
                ds == devices@.map_values(|d: DeviceIdentifier| d@),
                cs == steam_configs@.map_values(|c: Option<String>| match c {
                    Some(p) => Some(p@),
                    None => None,
                }),
                steam == self.steam_enabled(),
                self.wf(),
                i <= devices@.len(),
                self.gamepads() == scanned(start, ds, cs, steam, i as int),
            decreases devices.len() - i,
        {
            if self.is_gamepad_device(&devices[i]) {
                let config = if i < steam_configs.len() {
                    match &steam_configs[i] {
                        Some(p) => Some(p.clone()),
                        None => None,
                    }
                } else {
                    None
                };
                let info = self.analyze_gamepad(&devices[i], config);
                match info {
                    Ok(g) => {
                        self.upsert_gamepad(g);
                    },
                    Err(_) => {
                    },
                }
            }
            i = i + 1;
        }
        Ok(())
    }

    /// The number of known gamepads.
    pub fn gamepad_count(&self) -> (n: usize)
        ensures
            n == self.gamepads().len(),
    {
        self.gamepads.len()
    }

    /// The gamepads for `num_instances` players: the first known gamepads,
    /// one per player while they last, never the same gamepad twice.
    pub fn get_gamepad_assignments(&self, num_instances: usize) -> (v: Vec<DeviceIdentifier>)
        ensures
            v@.len() == if num_instances < self.gamepads().len() { num_instances as int } else { self.gamepads().len() as int },
            forall|i: int| 0 <= i < v@.len() ==> #[trigger] v@[i]@ == self.gamepads()[i].device_id,
            self.wf() ==> forall|i: int, j: int| 0 <= i < j < v@.len() ==> v@[i]@ != v@[j]@,
    {
        let mut v: Vec<DeviceIdentifier> = Vec::new();
        let mut i: usize = 0;
        while i < num_instances && i < self.gamepads.len()
            invariant
                i <= self.gamepads@.len(),
                i <= num_instances,
                v@.len() == i,
                forall|k: int| 0 <= k < i ==> #[trigger] v@[k]@ == self.gamepads()[k].device_id,
            decreases num_instances - i,
        {
            v.push(self.gamepads[i].device_id.clone());
            i = i + 1;
        }
        v
    }

    /// Controller settings for a game, as environment variables: Borderlands
    /// games get a dead zone of 0.15 and sensitivity 1.2, Call of Duty games
    /// aim assist and vibration, every other game just enables the gamepad.
    /// The game name is compared in lower case. Always succeeds.
    pub fn optimize_for_game(&self, game_name: &str) -> (r: Result<Vec<(String, String)>, HydraError>)
        ensures
            r matches Ok(env) && env_view(env@) == game_optimizations(lowercase(game_name@)),
    {
        let lower = to_lowercase(game_name);
        Ok(optimizations_for(lower.as_str()))
    }
}

/// Whether a lower-cased device name mentions a gamepad word (see
/// `gamepad_name`).
pub fn gamepad_name_matches(n: &str) -> (b: bool)
    ensures
        b == gamepad_name(n@),
{
    contains(n, "gamepad") || contains(n, "controller") || contains(n, "joystick") || contains(n, "xbox")
        || contains(n, "playstation") || contains(n, "ps4") || contains(n, "ps5") || contains(n, "steam")
        || contains(n, "8bitdo") || contains(n, "logitech")
}

/// The kind of controller of a device with this lower-cased name and these
/// ids (see `controller_type_from`).
pub fn controller_type_for(n: &str, vendor_id: u16, product_id: u16) -> (t: ControllerType)
    ensures
        t == controller_type_from(n@, vendor_id, product_id),
{
    if contains(n, "xbox 360") || product_id == 0x028e {
        ControllerType::Xbox360
    } else if contains(n, "xbox") || contains(n, "microsoft") {
        ControllerType::XboxOne
    } else if contains(n, "ps4") || contains(n, "dualshock 4") {
        ControllerType::PS4
    } else if contains(n, "ps5") || contains(n, "dualsense") {
        ControllerType::PS5
    } else if contains(n, "steam") && vendor_id == 0x28de {
        ControllerType::SteamController
    } else {
        ControllerType::Generic
    }
}

/// The controller settings for a lower-cased game name (see
/// `game_optimizations`).
pub fn optimizations_for(n: &str) -> (env: Vec<(String, String)>)
    ensures
        env_view(env@) == game_optimizations(n@),
{
    let mut env: Vec<(String, String)> = Vec::new();
    if contains(n, "borderlands") {
        env.push((owned("GAMEPAD_DEADZONE"), owned("0.15")));
        env.push((owned("GAMEPAD_SENSITIVITY"), owned("1.2")));
    } else if contains(n, "call of duty") {
        env.push((owned("GAMEPAD_AIM_ASSIST"), owned("1")));
        env.push((owned("GAMEPAD_VIBRATION"), owned("1")));
    } else {
        env.push((owned("GAMEPAD_ENABLED"), owned("1")));
    }
    assert(env_view(env@) =~= game_optimizations(n@));
    env
}

/// The controller settings for a lower-cased game name.
pub open spec fn game_optimizations(lower: Seq<char>) -> Seq<(Seq<char>, Seq<char>)> {
    if has_substring(lower, "borderlands"@) {
        seq![("GAMEPAD_DEADZONE"@, "0.15"@), ("GAMEPAD_SENSITIVITY"@, "1.2"@)]
    } else if has_substring(lower, "call of duty"@) {
        seq![("GAMEPAD_AIM_ASSIST"@, "1"@), ("GAMEPAD_VIBRATION"@, "1"@)]
    } else {
        seq![("GAMEPAD_ENABLED"@, "1"@)]
    }
}

} // verus!
