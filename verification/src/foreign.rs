//! Types of std and of outside crates that the launcher's data carries.
//! Each is opaque here: the library only stores and moves such values.

use vstd::prelude::*;

verus! {

/// `std::path::PathBuf`: a filesystem path, kept as an opaque value.
#[verifier::external_type_specification]
#[verifier::external_body]
pub struct ExPathBuf(std::path::PathBuf);

/// `std::io::Error`: an I/O failure reported by the operating system.
#[verifier::external_type_specification]
#[verifier::external_body]
pub struct ExIoError(std::io::Error);

/// `std::time::SystemTime`: a wall-clock instant.
#[verifier::external_type_specification]
#[verifier::external_body]
pub struct ExSystemTime(std::time::SystemTime);

/// `std::sync::mpsc::SendError<T>`: a send on a closed channel.
#[verifier::external_type_specification]
#[verifier::external_body]
#[verifier::reject_recursive_types(T)]
pub struct ExSendError<T>(std::sync::mpsc::SendError<T>);

/// `toml::de::Error`: a TOML document that could not be read.
#[verifier::external_type_specification]
#[verifier::external_body]
pub struct ExTomlDeError(toml::de::Error);

/// `toml::ser::Error`: a value that could not be written as TOML.
#[verifier::external_type_specification]
#[verifier::external_body]
pub struct ExTomlSeError(toml::ser::Error);

/// `log::SetLoggerError`: a logger was already installed.
#[verifier::external_type_specification]
#[verifier::external_body]
pub struct ExSetLoggerError(log::SetLoggerError);

/// `evdev::Error`: a failure of the evdev input layer.
#[verifier::external_type_specification]
#[verifier::external_body]
pub struct ExEvdevError(evdev::Error);

/// `x11rb::errors::ConnectError`: the X server could not be reached.
#[verifier::external_type_specification]
#[verifier::external_body]
pub struct ExConnectError(x11rb::errors::ConnectError);

/// `x11rb::errors::ConnectionError`: the X connection broke.
#[verifier::external_type_specification]
#[verifier::external_body]
pub struct ExConnectionError(x11rb::errors::ConnectionError);

/// `x11rb::errors::ReplyError`: the X server answered with an error.
#[verifier::external_type_specification]
#[verifier::external_body]
pub struct ExReplyError(x11rb::errors::ReplyError);

/// `PathBuf::clone` gives a path equal to the one it copies.
pub assume_specification[ <std::path::PathBuf as Clone>::clone ](p: &std::path::PathBuf) -> (r: std::path::PathBuf)
    ensures
        r == *p,
;

} // verus!
