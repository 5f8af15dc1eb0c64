//! A service and its lifecycle.
//!
//! A `Service` names one service directory and carries the two paths every
//! operation works on: `srcpath`, the physical definition under the
//! configured `svdir`, and `dstpath`, the activation symlink location under
//! the configured `lndir`.  The two are only ever derived together from the
//! configuration and the name.

use vstd::prelude::*;

use crate::configuration::Config;
use crate::errors::Error;
use crate::utils::digits_value;
use crate::utils::parse_u32;
use crate::utils::parses_to_u32;
use crate::utils::path_join;
use crate::utils::path_join_spec;
use crate::utils::trim_spec;
use crate::utils::write_to_fifo;
use crate::utils::FifoFailure;

verus! {

/// What a symlink-aware metadata read of the activation path found.  The
/// read must not follow a link: a symlink is reported as such, with the
/// path it resolves to.
#[derive(Debug)]
pub enum TargetKind {
    /// Nothing exists at the path.
    Absent,
    /// The path is a plain directory.
    Directory,
    /// The path is a regular file.
    RegularFile,
    /// The path is a symlink resolving to the carried path.
    Symlink(String),
}

/// The one filesystem change `enable` asks for: create a symlink at
/// `target` pointing to `source`.
#[derive(Debug)]
pub struct LinkRequest {
    /// What the new symlink must point to: the service's `srcpath`.
    pub source: String,
    /// Where the new symlink must be created: the service's `dstpath`.
    pub target: String,
}

/// How many times `stop` polls the supervisor's state file and how long it
/// pauses between polls.  An explicit policy rather than fixed literals, so
/// a caller can poll without delay.
#[derive(Debug)]
pub struct RetryPolicy {
    /// Total read attempts before giving up.
    pub max_attempts: u32,
    /// Milliseconds to pause between attempts.
    pub interval_ms: u64,
}

impl Default for RetryPolicy {
    /// The standard budget: five attempts, half a second apart.
    fn default() -> (p: RetryPolicy)
        ensures
            p.max_attempts == 5,
            p.interval_ms == 500,
    {
        RetryPolicy { max_attempts: 5, interval_ms: 500 }
    }
}

/// An in-flight `stop`: the down command has been sent and the supervisor's
/// state file is being polled until it confirms the service down.
#[derive(Debug)]
pub struct StopAttempt {
    /// The service being stopped, for the failure report.
    pub name: String,
    /// The state file to poll: `dstpath/supervise/stat`.
    pub stat_path: String,
    /// Milliseconds to pause before each retry.
    pub interval_ms: u64,
    /// Read attempts that remain.
    pub attempts_left: u32,
}

/// What one poll of the state file decided.
#[derive(Debug)]
pub enum StopProgress {
    /// The supervisor confirmed the service down; the stop succeeded.
    Confirmed,
    /// Not confirmed yet: pause for the carried number of milliseconds,
    /// read the state file again, and feed the result back in.
    SleepAndRetry(u64),
    /// The retry budget is exhausted; carries the `CouldNotDisable`
    /// failure to report.
    Failed(Error),
}

/// The exact state-file content that confirms a service down.
pub open spec fn down_stat() -> Seq<char> {
    "down\n"@
}

/// What `enable_check` decides for a service, given whether the definition
/// exists and what stands at the activation path: the one symlink to
/// create, or the exact refusal.
pub open spec fn enable_decision(s: Service, source_exists: bool, target: TargetKind) -> Result<
    LinkRequest,
    Error,
> {
    if !source_exists {
        Err(Error::SourceMissing(s.name, s.srcpath))
    } else {
        match target {
            TargetKind::Directory => Err(Error::IsDirectory(s.dstpath)),
            TargetKind::RegularFile => Err(Error::IsFile(s.dstpath)),
            TargetKind::Symlink(t) => if t@ == s.srcpath@ {
                Err(Error::AlreadyEnabled(s.name))
            } else {
                Err(Error::Mismatch(s.dstpath, s.name))
            },
            TargetKind::Absent => Ok(LinkRequest { source: s.srcpath, target: s.dstpath }),
        }
    }
}

/// What `disable_check` decides: a service whose activation path is absent
/// cannot be disabled.
pub open spec fn disable_decision(s: Service, target_exists: bool) -> Result<(), Error> {
    if !target_exists {
        Err(Error::Disabled(s.name))
    } else {
        Ok(())
    }
}

/// What one poll of the state file decides for an in-flight stop: exactly
/// `"down\n"` confirms; otherwise the budget rules.
pub open spec fn stop_poll_decision(a: StopAttempt, stat: Result<String, String>) -> StopProgress {
    if stat is Ok && stat->Ok_0@ == down_stat() {
        StopProgress::Confirmed
    } else if a.attempts_left > 1 {
        StopProgress::SleepAndRetry(a.interval_ms)
    } else {
        StopProgress::Failed(Error::CouldNotDisable(a.name))
    }
}

/// One service directory, named by its basename under both configured
/// directories.
#[derive(Debug)]
pub struct Service {
    /// Name of the service: the directory basename under both `svdir` and
    /// `lndir`.
    pub name: String,
    /// Path of the physical service definition, `svdir/name`.
    pub srcpath: String,
    /// Path of the activation symlink, `lndir/name`.
    pub dstpath: String,
    /// The configuration the two paths are derived from.
    pub config: Config,
}

impl Service {
    /// Both paths are exactly what the configuration and the name dictate.
    pub open spec fn paths_consistent(self) -> bool {
        &&& self.srcpath@ == path_join_spec(self.config.svdir@, self.name@)
        &&& self.dstpath@ == path_join_spec(self.config.lndir@, self.name@)
    }

    /// A fresh service around a configuration: no name, no paths yet.
    pub fn new(c: Config) -> (s: Service)
        ensures
            s.name@ == Seq::<char>::empty(),
            s.srcpath@ == Seq::<char>::empty(),
            s.dstpath@ == Seq::<char>::empty(),
            s.config == c,
    {
        Service { name: String::new(), srcpath: String::new(), dstpath: String::new(), config: c }
    }

    /// Derive `srcpath` and `dstpath` from the configured directories and
    /// the current name.
    ///
    /// The caller reports whether each configured directory exists as a
    /// directory; resolution refuses to construct paths against a missing
    /// one, naming it before anything is touched.
    pub fn get_paths(&mut self, svdir_is_dir: bool, lndir_is_dir: bool) -> (r: Result<(), Error>)
        ensures
            !svdir_is_dir ==> {
                &&& r == Err::<(), Error>(Error::ConfigDirMissing(
                    old(self).config.svdir,
                    old(self).name,
                ))
                &&& *final(self) == *old(self)
            },
            svdir_is_dir && !lndir_is_dir ==> {
                &&& r == Err::<(), Error>(Error::ConfigDirMissing(
                    old(self).config.lndir,
                    old(self).name,
                ))
                &&& *final(self) == *old(self)
            },
            svdir_is_dir && lndir_is_dir ==> {
                &&& r is Ok
                &&& final(self).name == old(self).name
                &&& final(self).config == old(self).config
                &&& final(self).paths_consistent()
            },
    {
        if !svdir_is_dir {
            return Err(Error::ConfigDirMissing(self.config.svdir.clone(), self.name.clone()));
        }
        if !lndir_is_dir {
            return Err(Error::ConfigDirMissing(self.config.lndir.clone(), self.name.clone()));
        }
        self.srcpath = path_join(self.config.svdir.as_str(), self.name.as_str());
        self.dstpath = path_join(self.config.lndir.as_str(), self.name.as_str());
        Ok(())
    }

    /// Point this value at another service name: both paths are recomputed
    /// from the configured directories alone, never from the previous
    /// paths.
    pub fn rename(&mut self, n: String) -> (r: Result<(), Error>)
        ensures
            r is Ok,
            final(self).name == n,
            final(self).config == old(self).config,
            final(self).paths_consistent(),
    {
        self.srcpath = path_join(self.config.svdir.as_str(), n.as_str());
        self.dstpath = path_join(self.config.lndir.as_str(), n.as_str());
        self.name = n;
        Ok(())
    }

    /// A path under this service's activation directory entry: `s` joined
    /// onto `dstpath`.
    pub fn make_path(&self, s: &str) -> (r: String)
        ensures
            r@ == path_join_spec(self.dstpath@, s@),
    {
        path_join(self.dstpath.as_str(), s)
    }

    /// Decide whether this service may be enabled, given whether its
    /// definition exists and what stands at its activation path.
    ///
    /// Activation is refused unless the definition is present and the
    /// activation path is completely absent; a plain directory or file
    /// there is never touched, and a foreign symlink is reported as a
    /// mismatch.  On success the returned request names the one symlink to
    /// create.  The check and the creation are separate steps, so a racing
    /// second activation can slip between them; the filesystem's refusal to
    /// create a second link at the same path is the final arbiter.
    pub fn enable_check(&self, source_exists: bool, target: &TargetKind) -> (r: Result<
        LinkRequest,
        Error,
    >)
        ensures
            r == enable_decision(*self, source_exists, *target),
    {
        if !source_exists {
            return Err(Error::SourceMissing(self.name.clone(), self.srcpath.clone()));
        }
        match target {
            TargetKind::Directory => Err(Error::IsDirectory(self.dstpath.clone())),
            TargetKind::RegularFile => Err(Error::IsFile(self.dstpath.clone())),
            TargetKind::Symlink(t) => {
                if *t == self.srcpath {
                    Err(Error::AlreadyEnabled(self.name.clone()))
                } else {
                    Err(Error::Mismatch(self.dstpath.clone(), self.name.clone()))
                }
            },
            TargetKind::Absent => Ok(
                LinkRequest { source: self.srcpath.clone(), target: self.dstpath.clone() },
            ),
        }
    }

    /// Turn the outcome of creating the activation symlink into the
    /// operation's result: a failure is wrapped with both paths.
    pub fn enable_finish(&self, link: Result<(), String>) -> (r: Result<(), Error>)
        ensures
            link is Ok ==> r is Ok,
            link matches Err(m) ==> r == Err::<(), Error>(
                Error::LinkFailed(self.srcpath, self.dstpath, m),
            ),
    {
        match link {
            Ok(_) => Ok(()),
            Err(m) => Err(Error::LinkFailed(self.srcpath.clone(), self.dstpath.clone(), m)),
        }
    }

    /// Forward one control character to the service's supervisor through
    /// its named pipe at `dstpath/supervise/control`.
    ///
    /// The caller reports whether the activation path exists; a disabled
    /// service takes no signals.  The character itself is not validated:
    /// whatever single character is given is written, and its meaning is
    /// entirely the supervisor's affair.  Success means the write
    /// succeeded, not that the supervisor consumed or acted on the byte.
    pub fn signal(&self, target_exists: bool, s: &str) -> (r: Result<(), Error>)
        ensures
            !target_exists ==> r == Err::<(), Error>(Error::NotEnabled(self.name)),
            target_exists ==> match r {
                Ok(_) => true,
                Err(Error::OpenFailed(p, _)) => p@ == path_join_spec(
                    self.dstpath@,
                    "supervise/control"@,
                ),
                Err(Error::WriteFailed(p, _)) => p@ == path_join_spec(
                    self.dstpath@,
                    "supervise/control"@,
                ),
                Err(_) => false,
            },
    {
        if !target_exists {
            return Err(Error::NotEnabled(self.name.clone()));
        }
        let control = self.make_path("supervise/control");
        match write_to_fifo(&control, s) {
            Ok(_) => Ok(()),
            Err(FifoFailure::Open(m)) => Err(Error::OpenFailed(control, m)),
            Err(FifoFailure::Write(m)) => Err(Error::WriteFailed(control, m)),
        }
    }

    /// Begin stopping the service: refuse if it is not enabled, send the
    /// down command, and hand back the polling state that will confirm the
    /// stop.
    ///
    /// The down command is best-effort: whether the pipe write succeeded is
    /// deliberately not inspected, because only the supervisor's state file
    /// can confirm the service down, and a missing pipe ends the same way,
    /// with the retry budget exhausted.
    pub fn stop_begin(&self, target_exists: bool, policy: &RetryPolicy) -> (r: Result<
        StopAttempt,
        Error,
    >)
        ensures
            !target_exists ==> r == Err::<StopAttempt, Error>(Error::NotEnabled(self.name)),
            target_exists ==> (r matches Ok(a) && a.name == self.name && a.stat_path@
                == path_join_spec(self.dstpath@, "supervise/stat"@) && a.interval_ms
                == policy.interval_ms && a.attempts_left == policy.max_attempts),
    {
        if !target_exists {
            return Err(Error::NotEnabled(self.name.clone()));
        }
        let _ = self.signal(true, "d");
        Ok(
            StopAttempt {
                name: self.name.clone(),
                stat_path: self.make_path("supervise/stat"),
                interval_ms: policy.interval_ms,
                attempts_left: policy.max_attempts,
            },
        )
    }

    /// Decide whether the service may be disabled: a service that is not
    /// enabled cannot be, and nothing is changed.
    pub fn disable_check(&self, target_exists: bool) -> (r: Result<(), Error>)
        ensures
            r == disable_decision(*self, target_exists),
    {
        if !target_exists {
            return Err(Error::Disabled(self.name.clone()));
        }
        Ok(())
    }

    /// Turn the outcome of removing the activation symlink into the
    /// operation's result.  The removal is only ever asked for after a
    /// confirmed stop; the source directory is never removed.
    pub fn disable_finish(&self, removed: Result<(), String>) -> (r: Result<(), Error>)
        ensures
            removed is Ok ==> r is Ok,
            removed matches Err(m) ==> r == Err::<(), Error>(
                Error::RemoveFailed(self.dstpath, m),
            ),
    {
        match removed {
            Ok(_) => Ok(()),
            Err(m) => Err(Error::RemoveFailed(self.dstpath.clone(), m)),
        }
    }
}

impl StopAttempt {
    /// Feed in one read of the supervisor's state file and decide how the
    /// stop proceeds.
    ///
    /// Only the exact content `"down\n"` confirms the stop; any other
    /// content, and any failure to read the file at all, spends one
    /// attempt.  While attempts remain the caller is told to pause and
    /// read again; with the budget exhausted the stop fails as
    /// `CouldNotDisable`.
    pub fn observe(&mut self, stat: Result<String, String>) -> (r: StopProgress)
        ensures
            r == stop_poll_decision(*old(self), stat),
            (stat matches Ok(c) && c@ == down_stat()) ==> *final(self) == *old(self),
            !(stat matches Ok(c) && c@ == down_stat()) && old(self).attempts_left > 1 ==> {
                &&& final(self).attempts_left == old(self).attempts_left - 1
                &&& final(self).name == old(self).name
                &&& final(self).stat_path == old(self).stat_path
                &&& final(self).interval_ms == old(self).interval_ms
            },
            !(stat matches Ok(c) && c@ == down_stat()) && old(self).attempts_left <= 1
                ==> *final(self) == *old(self),
    {
        let down = match &stat {
            Ok(c) => *c == String::from_str("down\n"),
            Err(_) => false,
        };
        if down {
            StopProgress::Confirmed
        } else if self.attempts_left > 1 {
            self.attempts_left = self.attempts_left - 1;
            StopProgress::SleepAndRetry(self.interval_ms)
        } else {
            StopProgress::Failed(Error::CouldNotDisable(self.name.clone()))
        }
    }
}

/// The relative path, under the activation path, of the pid file that a
/// status query reads: the service's own, or its log sub-service's.
pub open spec fn pid_rel_path(l: bool) -> Seq<char> {
    if l {
        "log/supervise/pid"@
    } else {
        "supervise/pid"@
    }
}

/// What the unverified shell observed on disk for one status query.
#[derive(Debug)]
pub struct StatusObservation {
    /// Whether the service's activation path exists at all.
    pub target_exists: bool,
    /// The pid file's content, or the message of the failure to read it.
    pub pid_file: Result<String, String>,
    /// The pid file's modification time in seconds since the epoch, or the
    /// message of the failure to read it.
    pub mtime_secs: Result<u64, String>,
    /// The wall clock at the query, in seconds since the epoch.
    pub now_secs: u64,
}

/// The run state derived for one service (or its log sub-service) from the
/// supervisor's pid file.
#[derive(Debug)]
pub struct Status {
    /// The service's name.
    pub name: String,
    /// Whether a supervised process is running: the pid file is non-empty.
    pub running: bool,
    /// The running process's pid, or 0 when down.
    pub pid: u32,
    /// Seconds since the pid file last changed: how long the service has
    /// been in its present state.
    pub elapsed_secs: u64,
}

impl Default for Status {
    /// The empty record a status query starts from.
    fn default() -> (s: Status)
        ensures
            s.name@ == Seq::<char>::empty(),
            !s.running,
            s.pid == 0,
            s.elapsed_secs == 0,
    {
        Status { name: String::new(), running: false, pid: 0, elapsed_secs: 0 }
    }
}

impl Status {
    /// Derive the run state of `s` (of its log sub-service when `l` is
    /// set) from what the shell observed on disk.
    ///
    /// An absent activation path means the service is disabled.  An empty
    /// pid file is a meaningful observation, a service that is down, not
    /// an error; a non-empty one must hold the supervised process's pid in
    /// decimal.  The pid file's age gives the seconds since the last state
    /// transition; a wall clock behind the file's timestamp is reported as
    /// skew rather than inventing an age.  On any failure `self` is left
    /// unchanged.
    pub fn status(&mut self, s: &Service, l: bool, obs: StatusObservation) -> (r: Result<
        (),
        Error,
    >)
        ensures
            !obs.target_exists ==> {
                &&& r == Err::<(), Error>(Error::Disabled(s.name))
                &&& *final(self) == *old(self)
            },
            obs.target_exists && obs.pid_file is Err ==> {
                &&& r matches Err(e)
                &&& e matches Error::ReadFailed(p, mm)
                &&& p@ == path_join_spec(s.dstpath@, pid_rel_path(l))
                &&& mm == obs.pid_file->Err_0
                &&& *final(self) == *old(self)
            },
            obs.target_exists && obs.pid_file is Ok && obs.pid_file->Ok_0@.len() > 0
                && !parses_to_u32(obs.pid_file->Ok_0@) ==> {
                &&& r matches Err(e)
                &&& e is InvalidPid
                &&& *final(self) == *old(self)
            },
            obs.target_exists && obs.pid_file is Ok && (obs.pid_file->Ok_0@.len() == 0
                || parses_to_u32(obs.pid_file->Ok_0@)) && obs.mtime_secs is Err ==> {
                &&& r matches Err(e)
                &&& e matches Error::StatMtimeFailed(p, mm)
                &&& p@ == path_join_spec(s.dstpath@, pid_rel_path(l))
                &&& mm == obs.mtime_secs->Err_0
                &&& *final(self) == *old(self)
            },
            obs.target_exists && obs.pid_file is Ok && (obs.pid_file->Ok_0@.len() == 0
                || parses_to_u32(obs.pid_file->Ok_0@)) && obs.mtime_secs is Ok && obs.now_secs
                < obs.mtime_secs->Ok_0 ==> {
                &&& r == Err::<(), Error>(Error::ClockSkew)
                &&& *final(self) == *old(self)
            },
            obs.target_exists && obs.pid_file is Ok && (obs.pid_file->Ok_0@.len() == 0
                || parses_to_u32(obs.pid_file->Ok_0@)) && obs.mtime_secs is Ok && obs.now_secs
                >= obs.mtime_secs->Ok_0 ==> {
                &&& r is Ok
                &&& final(self).name == s.name
                &&& final(self).elapsed_secs == obs.now_secs - obs.mtime_secs->Ok_0
                &&& obs.pid_file->Ok_0@.len() == 0 ==> !final(self).running && final(self).pid
                    == 0
                &&& obs.pid_file->Ok_0@.len() > 0 ==> final(self).running && final(self).pid
                    == digits_value(trim_spec(obs.pid_file->Ok_0@))
            },
    {
        if !obs.target_exists {
            return Err(Error::Disabled(s.name.clone()));
        }
        let pidf = if l {
            s.make_path("log/supervise/pid")
        } else {
            s.make_path("supervise/pid")
        };
        let (running, pid): (bool, u32) = match &obs.pid_file {
            Err(m) => {
                return Err(Error::ReadFailed(pidf, m.clone()));
            },
            Ok(c) => {
                if c.as_str().is_empty() {
                    (false, 0)
                } else {
                    match parse_u32(c.as_str()) {
                        Some(v) => (true, v),
                        None => {
                            return Err(
                                Error::InvalidPid(String::from_str("invalid unsigned integer")),
                            );
                        },
                    }
                }
            },
        };
        let mt: u64 = match &obs.mtime_secs {
            Err(m) => {
                return Err(Error::StatMtimeFailed(pidf, m.clone()));
            },
            Ok(t) => *t,
        };
        if obs.now_secs < mt {
            return Err(Error::ClockSkew);
        }
        self.name = s.name.clone();
        self.running = running;
        self.pid = pid;
        self.elapsed_secs = obs.now_secs - mt;
        Ok(())
    }
}

/// The character a named control command sends to the supervisor's pipe,
/// or nothing for an unknown command name.
pub open spec fn control_char_spec(s: Seq<char>) -> Option<char> {
    if s == "up"@ {
        Some('u')
    } else if s == "down"@ {
        Some('d')
    } else if s == "once"@ {
        Some('o')
    } else if s == "stop"@ {
        Some('p')
    } else if s == "cont"@ {
        Some('c')
    } else if s == "hup"@ {
        Some('h')
    } else if s == "alarm"@ {
        Some('a')
    } else if s == "int"@ {
        Some('i')
    } else if s == "quit"@ {
        Some('q')
    } else if s == "usr1"@ {
        Some('1')
    } else if s == "usr2"@ {
        Some('2')
    } else if s == "term"@ {
        Some('t')
    } else if s == "kill"@ {
        Some('k')
    } else if s == "exit"@ {
        Some('e')
    } else {
        None
    }
}

/// Enabling a resolved service whose definition exists and whose
/// activation path is absent succeeds, and the symlink it asks for is
/// exactly `lndir/name` pointing to `svdir/name`.
pub proof fn lemma_enable_fresh_links(s: Service)
    requires
        s.paths_consistent(),
    ensures
        enable_decision(s, true, TargetKind::Absent) matches Ok(req) && req.source@
            == path_join_spec(s.config.svdir@, s.name@) && req.target@ == path_join_spec(
            s.config.lndir@,
            s.name@,
        ),
{
}

/// Enabling succeeds exactly when the definition exists and the activation
/// path is absent; every other state of the world is a refusal and issues
/// no link request.
pub proof fn lemma_enable_succeeds_iff(s: Service, source_exists: bool, target: TargetKind)
    ensures
        enable_decision(s, source_exists, target) is Ok <==> (source_exists
            && target is Absent),
{
}

/// Enabling is not idempotent: once the activation path is a symlink to
/// this service's own definition, as a successful enable leaves it,
/// enabling again is refused as already enabled, and no link request is
/// issued, so the filesystem is left as it was.
pub proof fn lemma_enable_twice_refused(s: Service, t: String)
    requires
        t@ == s.srcpath@,
    ensures
        enable_decision(s, true, TargetKind::Symlink(t)) == Err::<LinkRequest, Error>(
            Error::AlreadyEnabled(s.name),
        ),
{
}

/// An activation path occupied by a plain directory or file blocks the
/// service: enabling fails with the respective refusal and no link request
/// is ever issued, so neither path is touched.
pub proof fn lemma_enable_blocked_never_links(s: Service)
    ensures
        enable_decision(s, true, TargetKind::Directory) == Err::<LinkRequest, Error>(
            Error::IsDirectory(s.dstpath),
        ),
        enable_decision(s, true, TargetKind::RegularFile) == Err::<LinkRequest, Error>(
            Error::IsFile(s.dstpath),
        ),
{
}

/// Disabling a service that was never enabled fails as disabled, and since
/// the refusal precedes both the stop and the removal, nothing is changed.
pub proof fn lemma_disable_never_enabled(s: Service)
    ensures
        disable_decision(s, false) == Err::<(), Error>(Error::Disabled(s.name)),
{
}

/// A state file holding exactly the down literal confirms a stop on the
/// poll that reads it, whatever retry budget remains: no sleep and no
/// further read is asked for.
pub proof fn lemma_stop_confirmed_at_once(a: StopAttempt, stat: Result<String, String>)
    requires
        stat matches Ok(c) && c@ == down_stat(),
    ensures
        stop_poll_decision(a, stat) is Confirmed,
{
}

/// A service's paths depend on its configuration and name alone: two
/// resolved services with the same configuration and the same name have
/// the same paths, whatever either held before — renaming never builds on
/// stale paths.
pub proof fn lemma_paths_from_config_alone(a: Service, b: Service)
    requires
        a.paths_consistent(),
        b.paths_consistent(),
        a.config.svdir@ == b.config.svdir@,
        a.config.lndir@ == b.config.lndir@,
        a.name@ == b.name@,
    ensures
        a.srcpath@ == b.srcpath@,
        a.dstpath@ == b.dstpath@,
{
}

/// Map a control command's name to the character written to the
/// supervisor's pipe.  `stop` here is the pause command; the internal stop
/// sequence sends `d` (down) and polls instead.
pub fn control_char(cmd: &str) -> (r: Option<char>)
    ensures
        r == control_char_spec(cmd@),
{
    let c = String::from_str(cmd);
    if c == String::from_str("up") {
        Some('u')
    } else if c == String::from_str("down") {
        Some('d')
    } else if c == String::from_str("once") {
        Some('o')
    } else if c == String::from_str("stop") {
        Some('p')
    } else if c == String::from_str("cont") {
        Some('c')
    } else if c == String::from_str("hup") {
        Some('h')
    } else if c == String::from_str("alarm") {
        Some('a')
    } else if c == String::from_str("int") {
        Some('i')
    } else if c == String::from_str("quit") {
        Some('q')
    } else if c == String::from_str("usr1") {
        Some('1')
    } else if c == String::from_str("usr2") {
        Some('2')
    } else if c == String::from_str("term") {
        Some('t')
    } else if c == String::from_str("kill") {
        Some('k')
    } else if c == String::from_str("exit") {
        Some('e')
    } else {
        None
    }
}

} // verus!
