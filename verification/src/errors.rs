//! The launcher's error type, which gathers the errors of all its parts.

use vstd::prelude::*;
use crate::config::ConfigError;
use crate::game_detection::GameDetectionError;
use crate::input_mux::InputMuxError;
use crate::instance_manager::InstanceManagerError;
use crate::net_emulator::NetEmulatorError;
use crate::proton_integration::ProtonError;
use crate::window_manager::WindowManagerError;

verus! {

/// Any failure of the launcher.
#[derive(Debug)]
pub enum HydraError {
    Config(ConfigError),
    InputMux(InputMuxError),
    InstanceManager(InstanceManagerError),
    NetEmulator(NetEmulatorError),
    WindowManager(WindowManagerError),
    Proton(ProtonError),
    GameDetection(GameDetectionError),
    Io(std::io::Error),
    Logging(log::SetLoggerError),
    Application(String),
    Validation(String),
}

impl From<ConfigError> for HydraError {
    fn from(err: ConfigError) -> (r: Self) {
        HydraError::Config(err)
    }
}

impl vstd::std_specs::convert::FromSpecImpl<ConfigError> for HydraError {
    open spec fn obeys_from_spec() -> bool {
        true
    }

    open spec fn from_spec(v: ConfigError) -> Self {
        HydraError::Config(v)
    }
}

impl From<InputMuxError> for HydraError {
    fn from(err: InputMuxError) -> (r: Self) {
        HydraError::InputMux(err)
    }
}

impl vstd::std_specs::convert::FromSpecImpl<InputMuxError> for HydraError {
    open spec fn obeys_from_spec() -> bool {
        true
    }

    open spec fn from_spec(v: InputMuxError) -> Self {
        HydraError::InputMux(v)
    }
}

impl From<InstanceManagerError> for HydraError {
    fn from(err: InstanceManagerError) -> (r: Self) {
        HydraError::InstanceManager(err)
    }
}

impl vstd::std_specs::convert::FromSpecImpl<InstanceManagerError> for HydraError {
    open spec fn obeys_from_spec() -> bool {
        true
    }

    open spec fn from_spec(v: InstanceManagerError) -> Self {
        HydraError::InstanceManager(v)
    }
}

impl From<NetEmulatorError> for HydraError {
    fn from(err: NetEmulatorError) -> (r: Self) {
        HydraError::NetEmulator(err)
    }
}

impl vstd::std_specs::convert::FromSpecImpl<NetEmulatorError> for HydraError {
    open spec fn obeys_from_spec() -> bool {
        true
    }

    open spec fn from_spec(v: NetEmulatorError) -> Self {
        HydraError::NetEmulator(v)
    }
}

impl From<WindowManagerError> for HydraError {
    fn from(err: WindowManagerError) -> (r: Self) {
        HydraError::WindowManager(err)
    }
}

impl vstd::std_specs::convert::FromSpecImpl<WindowManagerError> for HydraError {
    open spec fn obeys_from_spec() -> bool {
        true
    }

    open spec fn from_spec(v: WindowManagerError) -> Self {
        HydraError::WindowManager(v)
    }
}

impl From<ProtonError> for HydraError {
    fn from(err: ProtonError) -> (r: Self) {
        HydraError::Proton(err)
    }
}

impl vstd::std_specs::convert::FromSpecImpl<ProtonError> for HydraError {
    open spec fn obeys_from_spec() -> bool {
        true
    }

    open spec fn from_spec(v: ProtonError) -> Self {
        HydraError::Proton(v)
    }
}

impl From<GameDetectionError> for HydraError {
    fn from(err: GameDetectionError) -> (r: Self) {
        HydraError::GameDetection(err)
    }
}

impl vstd::std_specs::convert::FromSpecImpl<GameDetectionError> for HydraError {
    open spec fn obeys_from_spec() -> bool {
        true
    }

    open spec fn from_spec(v: GameDetectionError) -> Self {
        HydraError::GameDetection(v)
    }
}

impl From<std::io::Error> for HydraError {
    fn from(err: std::io::Error) -> (r: Self) {
        HydraError::Io(err)
    }
}

impl vstd::std_specs::convert::FromSpecImpl<std::io::Error> for HydraError {
    open spec fn obeys_from_spec() -> bool {
        true
    }

    open spec fn from_spec(v: std::io::Error) -> Self {
        HydraError::Io(v)
    }
}

impl From<log::SetLoggerError> for HydraError {
    fn from(err: log::SetLoggerError) -> (r: Self) {
        HydraError::Logging(err)
    }
}

impl vstd::std_specs::convert::FromSpecImpl<log::SetLoggerError> for HydraError {
    open spec fn obeys_from_spec() -> bool {
        true
    }

    open spec fn from_spec(v: log::SetLoggerError) -> Self {
        HydraError::Logging(v)
    }
}

impl HydraError {
    /// An application error with the given message.
    pub fn application(msg: String) -> (e: HydraError)
        ensures
            e == HydraError::Application(msg),
    {
        HydraError::Application(msg)
    }

    /// A validation error with the given message.
    pub fn validation(msg: String) -> (e: HydraError)
        ensures
            e == HydraError::Validation(msg),
    {
        HydraError::Validation(msg)
    }
}

} // verus!
