//! The closed error taxonomy of the controller.
//!
//! Every failure is value-carrying: it names the offending path or service
//! and, where an operating-system call failed underneath, carries that
//! failure's message as text.  Operations return these as values; nothing in
//! the library terminates the process.

use vstd::prelude::*;

verus! {

/// Everything that can go wrong while resolving, activating, signalling or
/// inspecting a service, plus the failures of configuration loading.
#[derive(Debug)]
pub enum Error {
    /// A configured directory (`svdir` or `lndir`) does not exist as a
    /// directory; carries the directory and the service name being resolved.
    ConfigDirMissing(String, String),
    /// The service definition `svdir/name` does not exist; carries the name
    /// and the source path.
    SourceMissing(String, String),
    /// The activation symlink already points at this service's definition.
    AlreadyEnabled(String),
    /// The activation path is a symlink that resolves somewhere else;
    /// carries the target path and the service name.
    Mismatch(String, String),
    /// The activation path exists as a plain directory.
    IsDirectory(String),
    /// The activation path exists as a plain file.
    IsFile(String),
    /// Creating the activation symlink failed; carries source path, target
    /// path and the underlying failure.
    LinkFailed(String, String, String),
    /// The operation needs the service to be enabled but the activation
    /// path is absent.
    NotEnabled(String),
    /// Disabling or inspecting a service whose activation path is absent.
    Disabled(String),
    /// The down command was sent but the supervisor never confirmed the
    /// service down within the retry budget.
    CouldNotDisable(String),
    /// Removing the activation symlink failed; carries the path and the
    /// underlying failure.
    RemoveFailed(String, String),
    /// The supervisor's pid file held something that is not a decimal
    /// unsigned integer.
    InvalidPid(String),
    /// The pid file's modification time could not be read; carries the path
    /// and the underlying failure.
    StatMtimeFailed(String, String),
    /// The wall clock reads earlier than the pid file's modification time.
    ClockSkew,
    /// Opening the supervisor's control pipe failed; carries the path and
    /// the underlying failure.
    OpenFailed(String, String),
    /// Writing the control character to the pipe failed; carries the path
    /// and the underlying failure.
    WriteFailed(String, String),
    /// Reading a supervisor state file failed; carries the path and the
    /// underlying failure.
    ReadFailed(String, String),
    /// A configuration file could not be loaded; carries its path and a
    /// description of the cause.
    FailedToLoadConf(String, String),
    /// Configuration loading was asked for while no configuration path is
    /// set.
    CalledWithoutConf,
    /// A configuration was opened while its path is unset.
    ConfNone,
    /// Reading the configuration file failed; carries the failure's message.
    Io(String),
    /// The configuration file's contents could not be deserialized.
    DeToml(String),
}

/// The text `describe` renders for each failure.
pub open spec fn describe_spec(e: Error) -> Seq<char> {
    match e {
        Error::ConfigDirMissing(d, n) => "Directory ("@ + d@ + ") of service ("@ + n@
            + ") does not exist"@,
        Error::SourceMissing(n, p) => "Service ("@ + n@ + ") not available on "@ + p@ + "!"@,
        Error::AlreadyEnabled(n) => "Service ("@ + n@ + ") is already enabled"@,
        Error::Mismatch(p, n) => "Path "@ + p@ + " of service '"@ + n@
            + "' is claimed by another service"@,
        Error::IsDirectory(p) => "Path "@ + p@ + " is a directory"@,
        Error::IsFile(p) => "Path "@ + p@ + " is a file"@,
        Error::LinkFailed(s, t, m) => "Could not link "@ + s@ + " to "@ + t@ + "! Error: "@ + m@,
        Error::NotEnabled(n) => "Service ("@ + n@ + ") is not enabled"@,
        Error::Disabled(n) => "Service ("@ + n@ + ") is disabled"@,
        Error::CouldNotDisable(n) => "Could not disable service ("@ + n@
            + ") by writing to fifo!"@,
        Error::RemoveFailed(p, m) => "Could not remove file on "@ + p@ + "! Error: "@ + m@,
        Error::InvalidPid(m) => "Could not parse pid! Error: "@ + m@,
        Error::StatMtimeFailed(p, m) => "Could not read mtime of "@ + p@ + "! Error: "@ + m@,
        Error::ClockSkew => "Clock skew: modification time is in the future"@,
        Error::OpenFailed(p, m) => "Could not open "@ + p@ + "! Error: "@ + m@,
        Error::WriteFailed(p, m) => "Could not write to "@ + p@ + "! Error: "@ + m@,
        Error::ReadFailed(p, m) => "Could not read "@ + p@ + "! Error: "@ + m@,
        Error::FailedToLoadConf(p, m) => "Failed to load config from "@ + p@ + "! Error: "@ + m@,
        Error::CalledWithoutConf => "Configuration loading was called without a configuration path"@,
        Error::ConfNone => "open() was called on a configuration but Path is None"@,
        Error::Io(m) => m@,
        Error::DeToml(m) => "Failed to deserialize config TOML! Error: "@ + m@,
    }
}

impl Error {
    /// Render this failure as one line of text, uniformly for every kind.
    pub fn describe(&self) -> (r: String)
        ensures
            r@ == describe_spec(*self),
    {
        match self {
            Error::ConfigDirMissing(d, n) => {
                let mut r = String::from_str("Directory (");
                r.append(d.as_str());
                r.append(") of service (");
                r.append(n.as_str());
                r.append(") does not exist");
                r
            },
            Error::SourceMissing(n, p) => {
                let mut r = String::from_str("Service (");
                r.append(n.as_str());
                r.append(") not available on ");
                r.append(p.as_str());
                r.append("!");
                r
            },
            Error::AlreadyEnabled(n) => {
                let mut r = String::from_str("Service (");
                r.append(n.as_str());
                r.append(") is already enabled");
                r
            },
            Error::Mismatch(p, n) => {
                let mut r = String::from_str("Path ");
                r.append(p.as_str());
                r.append(" of service '");
                r.append(n.as_str());
                r.append("' is claimed by another service");
                r
            },
            Error::IsDirectory(p) => {
                let mut r = String::from_str("Path ");
                r.append(p.as_str());
                r.append(" is a directory");
                r
            },
            Error::IsFile(p) => {
                let mut r = String::from_str("Path ");
                r.append(p.as_str());
                r.append(" is a file");
                r
            },
            Error::LinkFailed(s, t, m) => {
                let mut r = String::from_str("Could not link ");
                r.append(s.as_str());
                r.append(" to ");
                r.append(t.as_str());
                r.append("! Error: ");
                r.append(m.as_str());
                r
            },
            Error::NotEnabled(n) => {
                let mut r = String::from_str("Service (");
                r.append(n.as_str());
                r.append(") is not enabled");
                r
            },
            Error::Disabled(n) => {
                let mut r = String::from_str("Service (");
                r.append(n.as_str());
                r.append(") is disabled");
                r
            },
            Error::CouldNotDisable(n) => {
                let mut r = String::from_str("Could not disable service (");
                r.append(n.as_str());
                r.append(") by writing to fifo!");
                r
            },
            Error::RemoveFailed(p, m) => {
                let mut r = String::from_str("Could not remove file on ");
                r.append(p.as_str());
                r.append("! Error: ");
                r.append(m.as_str());
                r
            },
            Error::InvalidPid(m) => {
                let mut r = String::from_str("Could not parse pid! Error: ");
                r.append(m.as_str());
                r
            },
            Error::StatMtimeFailed(p, m) => {
                let mut r = String::from_str("Could not read mtime of ");
                r.append(p.as_str());
                r.append("! Error: ");
                r.append(m.as_str());
                r
            },
            Error::ClockSkew => String::from_str("Clock skew: modification time is in the future"),
            Error::OpenFailed(p, m) => {
                let mut r = String::from_str("Could not open ");
                r.append(p.as_str());
                r.append("! Error: ");
                r.append(m.as_str());
                r
            },
            Error::WriteFailed(p, m) => {
                let mut r = String::from_str("Could not write to ");
                r.append(p.as_str());
                r.append("! Error: ");
                r.append(m.as_str());
                r
            },
            Error::ReadFailed(p, m) => {
                let mut r = String::from_str("Could not read ");
                r.append(p.as_str());
                r.append("! Error: ");
                r.append(m.as_str());
                r
            },
            Error::FailedToLoadConf(p, m) => {
                let mut r = String::from_str("Failed to load config from ");
                r.append(p.as_str());
                r.append("! Error: ");
                r.append(m.as_str());
                r
            },
            Error::CalledWithoutConf => String::from_str(
                "Configuration loading was called without a configuration path",
            ),
            Error::ConfNone => String::from_str(
                "open() was called on a configuration but Path is None",
            ),
            Error::Io(m) => m.clone(),
            Error::DeToml(m) => {
                let mut r = String::from_str("Failed to deserialize config TOML! Error: ");
                r.append(m.as_str());
                r
            },
        }
    }
}

} // verus!
