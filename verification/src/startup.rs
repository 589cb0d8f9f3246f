//! The ways in which the daemon ends, and the exit code of each.

use vstd::prelude::*;

verus! {

/// How the process ended.
#[derive(Clone, Copy, Debug, PartialEq, Eq)]
pub enum Exit {
    /// Both threads returned after the shutdown flag was set.
    Orderly,
    /// The rolling log file could not be set up.
    LogFileUnavailable,
    /// The logging configuration was refused.
    LogConfigRefused,
    /// The logger could not be installed.
    LoggerUnavailable,
    /// No configuration file was named.
    ConfigNotNamed,
    /// The configuration file could not be found or read.
    ConfigUnreadable,
    /// The configuration file could not be parsed.
    ConfigUnparsable,
    /// The transport thread could not be spawned.
    TransportNotSpawned,
    /// The persistence thread could not be spawned.
    PersistenceNotSpawned,
    /// A thread could not be joined.
    JoinFailed,
}

/// The exit code of each way to end: zero for the orderly one, and a code
/// of its own for every other.
pub open spec fn exit_code_of(exit: Exit) -> i32 {
    match exit {
        Exit::Orderly => 0,
        Exit::LogFileUnavailable => 101,
        Exit::LogConfigRefused => 102,
        Exit::LoggerUnavailable => 103,
        Exit::ConfigNotNamed => 104,
        Exit::ConfigUnreadable => 105,
        Exit::ConfigUnparsable => 106,
        Exit::TransportNotSpawned => 201,
        Exit::PersistenceNotSpawned => 202,
        Exit::JoinFailed => 301,
    }
}

/// The exit code of a way to end.
pub fn exit_code(exit: Exit) -> (code: i32)
    ensures
        code == exit_code_of(exit),
{
    match exit {
        Exit::Orderly => 0,
        Exit::LogFileUnavailable => 101,
        Exit::LogConfigRefused => 102,
        Exit::LoggerUnavailable => 103,
        Exit::ConfigNotNamed => 104,
        Exit::ConfigUnreadable => 105,
        Exit::ConfigUnparsable => 106,
        Exit::TransportNotSpawned => 201,
        Exit::PersistenceNotSpawned => 202,
        Exit::JoinFailed => 301,
    }
}

/// Only the orderly end has the code zero, and two different ways to end
/// have different codes.
pub proof fn lemma_exit_codes_distinct(a: Exit, b: Exit)
    ensures
        exit_code_of(a) == 0 <==> a == Exit::Orderly,
        exit_code_of(a) == exit_code_of(b) ==> a == b,
{
}

/// How the process ends once both threads were started: orderly where both
/// were joined, however many records were dropped on the way.
pub fn exit_after_join(transport_joined: bool, persistence_joined: bool) -> (exit: Exit)
    ensures
        exit == if transport_joined && persistence_joined {
            Exit::Orderly
        } else {
            Exit::JoinFailed
        },
{
    if transport_joined && persistence_joined {
        Exit::Orderly
    } else {
        Exit::JoinFailed
    }
}

} // verus!
