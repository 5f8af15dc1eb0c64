//! The controller's configuration: where service definitions live (`svdir`)
//! and where their activation symlinks go (`lndir`), together with the
//! decisions of configuration-file discovery and loading.
//!
//! Reading candidate files and deserializing their contents is filesystem
//! work done by the unverified shell; the shell reports what it found and
//! the verified functions here decide what the configuration becomes.

use vstd::prelude::*;

use crate::errors::Error;

verus! {

/// Holds the location of a configuration file, if any, and the two
/// directories every other operation is resolved against.
#[derive(Debug)]
pub struct Config {
    /// Where the configuration was read from; `None` when the built-in
    /// defaults are in use.
    pub path: Option<String>,
    /// Directory holding the physical service definitions.
    pub svdir: String,
    /// Directory holding the activation symlinks.
    pub lndir: String,
}

impl Default for Config {
    /// The built-in configuration: no file, and the conventional system
    /// locations for the two directories.
    fn default() -> (c: Config)
        ensures
            c.path is None,
            c.svdir@ == "/etc/sv"@,
            c.lndir@ == "/var/service"@,
    {
        Config {
            path: None,
            svdir: String::from_str("/etc/sv"),
            lndir: String::from_str("/var/service"),
        }
    }
}

/// The two values a configuration file contributes, as the unverified
/// shell hands them over after deserializing the file.
#[derive(Debug)]
pub struct ConfFile {
    /// The configured service-definition directory.
    pub svdir: String,
    /// The configured activation directory.
    pub lndir: String,
}

impl Config {
    /// A fresh configuration with the default values.
    pub fn new() -> (c: Config)
        ensures
            c.path is None,
            c.svdir@ == "/etc/sv"@,
            c.lndir@ == "/var/service"@,
    {
        Config::default()
    }

    /// The candidate configuration-file locations, in the order they are
    /// searched: `/run` for temporary system configuration, `/etc` for the
    /// local administrator, `/usr/share` for the distribution.
    pub fn conf_candidates() -> (v: Vec<String>)
        ensures
            v@.len() == 3,
            v@[0]@ == "/run/svctrl/config.toml"@,
            v@[1]@ == "/etc/svctrl/config.toml"@,
            v@[2]@ == "/usr/share/svctrl/config.toml"@,
    {
        let mut v: Vec<String> = Vec::new();
        v.push(String::from_str("/run/svctrl/config.toml"));
        v.push(String::from_str("/etc/svctrl/config.toml"));
        v.push(String::from_str("/usr/share/svctrl/config.toml"));
        v
    }

    /// Settle on the first candidate location that holds a file, or none.
    ///
    /// The caller probes the three candidates of `conf_candidates`, in
    /// order, and reports for each whether it exists as a file.
    pub fn find_conf(&mut self, run_present: bool, etc_present: bool, usr_share_present: bool)
        ensures
            final(self).svdir == old(self).svdir,
            final(self).lndir == old(self).lndir,
            run_present ==> (final(self).path matches Some(p) && p@ == "/run/svctrl/config.toml"@),
            !run_present && etc_present ==> (final(self).path matches Some(p) && p@
                == "/etc/svctrl/config.toml"@),
            !run_present && !etc_present && usr_share_present ==> (final(self).path matches Some(p)
                && p@ == "/usr/share/svctrl/config.toml"@),
            !run_present && !etc_present && !usr_share_present ==> final(self).path is None,
    {
        if run_present {
            self.path = Some(String::from_str("/run/svctrl/config.toml"));
        } else if etc_present {
            self.path = Some(String::from_str("/etc/svctrl/config.toml"));
        } else if usr_share_present {
            self.path = Some(String::from_str("/usr/share/svctrl/config.toml"));
        } else {
            self.path = None;
        }
    }

    /// Apply what the shell read and deserialized from the configuration
    /// file at `self.path`: on success the two directories are replaced,
    /// on failure the error is handed back and nothing changes.  A
    /// configuration without a path cannot be opened.
    pub fn open(&mut self, parsed: Result<ConfFile, Error>) -> (r: Result<(), Error>)
        ensures
            old(self).path is None ==> {
                &&& r == Err::<(), Error>(Error::ConfNone)
                &&& *final(self) == *old(self)
            },
            old(self).path is Some && parsed is Err ==> {
                &&& r == Err::<(), Error>(parsed->Err_0)
                &&& *final(self) == *old(self)
            },
            old(self).path is Some && parsed is Ok ==> {
                &&& r is Ok
                &&& final(self).path == old(self).path
                &&& final(self).svdir == parsed->Ok_0.svdir
                &&& final(self).lndir == parsed->Ok_0.lndir
            },
    {
        if self.path.is_none() {
            return Err(Error::ConfNone);
        }
        match parsed {
            Err(e) => Err(e),
            Ok(c) => {
                self.svdir = c.svdir;
                self.lndir = c.lndir;
                Ok(())
            },
        }
    }

    /// Load the configuration file at `self.path` from what the shell read
    /// of it, wrapping any failure with the path it concerns.  Loading
    /// without a path set is refused.
    pub fn load_conf(&mut self, parsed: Result<ConfFile, Error>) -> (r: Result<(), Error>)
        ensures
            old(self).path is None ==> {
                &&& r == Err::<(), Error>(Error::CalledWithoutConf)
                &&& *final(self) == *old(self)
            },
            old(self).path is Some && parsed is Err ==> {
                &&& r matches Err(ee)
                &&& ee matches Error::FailedToLoadConf(p, m)
                &&& p == old(self).path->0
                &&& m@ == crate::errors::describe_spec(parsed->Err_0)
                &&& *final(self) == *old(self)
            },
            old(self).path is Some && parsed is Ok ==> {
                &&& r is Ok
                &&& final(self).path == old(self).path
                &&& final(self).svdir == parsed->Ok_0.svdir
                &&& final(self).lndir == parsed->Ok_0.lndir
            },
    {
        let path_for_err = match &self.path {
            None => {
                return Err(Error::CalledWithoutConf);
            },
            Some(p) => p.clone(),
        };
        match self.open(parsed) {
            Ok(_) => Ok(()),
            Err(e) => Err(Error::FailedToLoadConf(path_for_err, e.describe())),
        }
    }

    /// Settle where the configuration comes from: an explicitly given path
    /// wins, else the first candidate location that holds a file.  The
    /// chosen path, also recorded in `self.path`, is returned for the
    /// shell to read; `None` means no file is to be read and the current
    /// values stand.
    pub fn set_conf(
        &mut self,
        conf_path: Option<String>,
        run_present: bool,
        etc_present: bool,
        usr_share_present: bool,
    ) -> (chosen: Option<String>)
        ensures
            final(self).svdir == old(self).svdir,
            final(self).lndir == old(self).lndir,
            chosen == final(self).path,
            conf_path is Some ==> final(self).path == conf_path,
            conf_path is None && run_present ==> (final(self).path matches Some(p) && p@
                == "/run/svctrl/config.toml"@),
            conf_path is None && !run_present && etc_present ==> (final(self).path matches Some(p)
                && p@ == "/etc/svctrl/config.toml"@),
            conf_path is None && !run_present && !etc_present && usr_share_present ==> {
                &&& final(self).path matches Some(p)
                &&& p@ == "/usr/share/svctrl/config.toml"@
            },
            conf_path is None && !run_present && !etc_present && !usr_share_present ==> final(self).path is None,
    {
        match conf_path {
            Some(p) => {
                self.path = Some(p);
            },
            None => {
                self.find_conf(run_present, etc_present, usr_share_present);
            },
        }
        match &self.path {
            Some(p) => Some(p.clone()),
            None => None,
        }
    }
}

} // verus!
