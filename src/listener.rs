//! The Unix-domain socket publisher.
//!
//! The socket is bound at a private path, given mode `0o666`, and only then
//! made discoverable through a symbolic link at the public path. The
//! publisher decides each step; the caller carries it out on the file system
//! and reports back whether it succeeded.
use std::sync::Arc;
use vstd::prelude::*;

use crate::config::FdkEnv;
use crate::error::{FdkError, RustFdkError, RustFdkResult};
use crate::logger::{FdkRunner, FDK_LOG_DEBUG};

verus! {

/// What a listener url must start with; the public path is what follows it.
pub const SOCKET_PREFIX: &'static str = "unix:/";

/// Appended to the public path to give the path the socket is bound at.
pub const PRIVATE_SOCKET_SUFFIX: &'static str = ".private";

/// The permission bits the private socket file is given: read and write for all.
pub const PRIVATE_SOCKET_MODE: u32 = 0o666;

pub open spec fn starts_with(s: Seq<char>, prefix: Seq<char>) -> bool {
    prefix.len() <= s.len() && s.take(prefix.len() as int) == prefix
}

/// Relies on `str::strip_prefix`: what follows `prefix` when `s` starts with
/// it, `None` when it does not.
#[verifier::external_body]
fn strip_prefix<'a>(s: &'a str, prefix: &str) -> (r: Option<&'a str>)
    ensures
        r is Some <==> starts_with(s@, prefix@),
        r matches Some(rest) ==> rest@ == s@.skip(prefix@.len() as int),
{
    s.strip_prefix(prefix)
}

/// A listener url that names a Unix socket: it starts with `unix:/`.
pub open spec fn is_unix_listener(url: Seq<char>) -> bool {
    starts_with(url, SOCKET_PREFIX@)
}

/// The public path of a Unix listener url: what follows its prefix.
pub open spec fn public_path_of(url: Seq<char>) -> Seq<char> {
    url.skip(SOCKET_PREFIX@.len() as int)
}

/// The path the socket is bound at for the public path `public`.
pub open spec fn private_path_of(public: Seq<char>) -> Seq<char> {
    public + PRIVATE_SOCKET_SUFFIX@
}

/// The debug line recorded once the socket is published.
pub open spec fn listening_line(private: Seq<char>, public: Seq<char>) -> Seq<char> {
    "Listening on "@ + private + "->"@ + public
}

/// `r` is an error of this library's own with the given message.
pub open spec fn fails_with<T>(r: Result<T, RustFdkError>, message: Seq<char>) -> bool {
    match r {
        Err(RustFdkError::Fdk(e)) => e.message@ == message && e.backtrace@.len() == 0,
        _ => false,
    }
}

/// `r` ends publishing with an error of this library's own with the given
/// message.
pub open spec fn aborts_with(r: Action, message: Seq<char>) -> bool {
    match r {
        Action::Abort { error: RustFdkError::Fdk(e) } => e.message@ == message
            && e.backtrace@.len() == 0,
        _ => false,
    }
}

/// `r` completes publishing for `l`: the debug line that records the
/// mapping from the private path to the public one, when debug output
/// is shown.
pub open spec fn reports_published(l: FdkListener, r: Action) -> bool {
    match r {
        Action::Done { message } => match message {
            Some(m) => FDK_LOG_DEBUG >= l.spec_runner().threshold() && m@ == listening_line(
                l.private_path(),
                l.public_path(),
            ),
            None => FDK_LOG_DEBUG < l.spec_runner().threshold(),
        },
        _ => false,
    }
}

/// How far the socket has come.
#[derive(PartialEq, Eq, Structural, Clone, Copy, Debug)]
pub enum Phase {
    /// Paths derived, nothing on the file system yet.
    Unbound,
    /// The socket is bound at the private path.
    Bound,
    /// The private socket file is open.
    Opened,
    /// The private socket file has mode `0o666`.
    Widened,
    /// The public path links to the private one.
    Published,
    /// A step failed; nothing more is done.
    Failed,
}

/// A step for the caller to carry out.
#[derive(Debug)]
pub enum Action {
    /// Bind a listening Unix socket at `path`.
    Bind { path: String },
    /// Open the socket file at `path`.
    Open { path: String },
    /// Set the opened file's permission bits to `mode`.
    SetPermissions { mode: u32 },
    /// Create a symbolic link at `link` that points to `original`.
    Symlink { original: String, link: String },
    /// Publishing is complete; `message` is the debug line to emit, if any.
    Done { message: Option<String> },
    /// Publishing failed with `error`.
    Abort { error: RustFdkError },
    /// Nothing is left to do.
    Idle,
}

/// How the last step went.
#[derive(Debug)]
pub enum Event {
    Succeeded,
    Failed { error: std::io::Error },
}

pub open spec fn is_terminal(p: Phase) -> bool {
    p == Phase::Published || p == Phase::Failed
}

/// The phase after a step taken in phase `p`, which succeeded when `ok`.
pub open spec fn next_phase(p: Phase, ok: bool) -> Phase {
    match p {
        Phase::Unbound => if ok { Phase::Bound } else { Phase::Failed },
        Phase::Bound => if ok { Phase::Opened } else { Phase::Failed },
        Phase::Opened => if ok { Phase::Widened } else { Phase::Failed },
        Phase::Widened => if ok { Phase::Published } else { Phase::Failed },
        Phase::Published => Phase::Published,
        Phase::Failed => Phase::Failed,
    }
}

/// The phase reached from `p` by steps whose outcomes are `oks`, in order.
pub open spec fn run(p: Phase, oks: Seq<bool>) -> Phase
    decreases oks.len(),
{
    if oks.len() == 0 {
        p
    } else {
        next_phase(run(p, oks.drop_last()), oks.last())
    }
}

/// The socket of one listener url, and how far it has come.
#[derive(Debug)]
pub struct FdkListener {
    socket_path: String,
    private_socket_path: String,
    env: Arc<FdkEnv>,
    runner: FdkRunner,
    phase: Phase,
}

impl FdkListener {
    pub closed spec fn public_path(&self) -> Seq<char> {
        self.socket_path@
    }

    pub closed spec fn private_path(&self) -> Seq<char> {
        self.private_socket_path@
    }

    pub closed spec fn state(&self) -> Phase {
        self.phase
    }

    pub closed spec fn spec_env(&self) -> Arc<FdkEnv> {
        self.env
    }

    pub closed spec fn spec_runner(&self) -> FdkRunner {
        self.runner
    }

    /// The private path is the public one with the suffix appended.
    pub open spec fn wf(&self) -> bool {
        self.private_path() == private_path_of(self.public_path())
    }

    /// `a` is the step pending in phase `p`.
    pub open spec fn requests(&self, p: Phase, a: Action) -> bool {
        match p {
            Phase::Unbound => a matches Action::Bind { path } && path@ == self.private_path(),
            Phase::Bound => a matches Action::Open { path } && path@ == self.private_path(),
            Phase::Opened => a matches Action::SetPermissions { mode } && mode
                == PRIVATE_SOCKET_MODE,
            Phase::Widened => a matches Action::Symlink { original, link } && original@
                == self.private_path() && link@ == self.public_path(),
            _ => a is Idle,
        }
    }

    /// Validates the listener url of `env` and derives the two paths; nothing
    /// is done on the file system.
    pub fn new(env: Arc<FdkEnv>, runner: FdkRunner) -> (r: RustFdkResult<Self>)
        ensures
            match env.fn_listener {
                None => fails_with(r, "No listener url provided"@),
                Some(url) => if is_unix_listener(url@) {
                    match r {
                        Ok(l) => {
                            &&& l.wf()
                            &&& l.public_path() == public_path_of(url@)
                            &&& l.private_path() == private_path_of(public_path_of(url@))
                            &&& l.state() == Phase::Unbound
                            &&& l.spec_env() == env
                            &&& l.spec_runner() == runner
                        },
                        Err(_) => false,
                    }
                } else {
                    fails_with(r, "Listener url is not a unix socket"@)
                },
            },
    {
        let url = match &env.fn_listener {
            Some(url) => url.as_str(),
            None => {
                return Err(RustFdkError::Fdk(FdkError::new("No listener url provided")));
            },
        };
        let stripped = match strip_prefix(url, SOCKET_PREFIX) {
            Some(stripped) => stripped,
            None => {
                return Err(RustFdkError::Fdk(FdkError::new("Listener url is not a unix socket")));
            },
        };
        let socket_path = stripped.to_owned();
        let mut private_socket_path = stripped.to_owned();
        private_socket_path.append(PRIVATE_SOCKET_SUFFIX);
        let env_ref = env.clone();
        Ok(FdkListener {
            socket_path,
            private_socket_path,
            env: env_ref,
            runner,
            phase: Phase::Unbound,
        })
    }

    /// The path callers find the socket at.
    pub fn socket_path(&self) -> (r: &str)
        ensures
            r@ == self.public_path(),
    {
        self.socket_path.as_str()
    }

    /// The path the socket is bound at.
    pub fn private_socket_path(&self) -> (r: &str)
        ensures
            r@ == self.private_path(),
    {
        self.private_socket_path.as_str()
    }

    pub fn phase(&self) -> (r: Phase)
        ensures
            r == self.state(),
    {
        self.phase
    }

    pub fn env(&self) -> (r: &Arc<FdkEnv>)
        ensures
            *r == self.spec_env(),
    {
        &self.env
    }

    pub fn runner(&self) -> (r: &FdkRunner)
        ensures
            *r == self.spec_runner(),
    {
        &self.runner
    }

    /// The step pending in the current phase; `Idle` once publishing has
    /// ended.
    pub fn pending_action(&self) -> (r: Action)
        ensures
            self.requests(self.state(), r),
    {
        match self.phase {
            Phase::Unbound => Action::Bind { path: self.private_socket_path.clone() },
            Phase::Bound => Action::Open { path: self.private_socket_path.clone() },
            Phase::Opened => Action::SetPermissions { mode: PRIVATE_SOCKET_MODE },
            Phase::Widened => Action::Symlink {
                original: self.private_socket_path.clone(),
                link: self.socket_path.clone(),
            },
            _ => Action::Idle,
        }
    }

    /// Takes the outcome of the pending step and gives the next one.
    ///
    /// Binding comes first; the file is opened, widened and linked only after
    /// each earlier step succeeded. A failure ends publishing: I/O errors are
    /// handed on unchanged, except that a private socket file that cannot be
    /// opened is reported as such.
    pub fn step(&mut self, event: Event) -> (r: Action)
        ensures
            final(self).public_path() == old(self).public_path(),
            final(self).private_path() == old(self).private_path(),
            final(self).spec_env() == old(self).spec_env(),
            final(self).spec_runner() == old(self).spec_runner(),
            final(self).state() == next_phase(old(self).state(), event is Succeeded),
            old(self).wf() ==> final(self).wf(),
            is_terminal(old(self).state()) ==> r is Idle,
            !is_terminal(old(self).state()) ==> match event {
                Event::Succeeded => if final(self).state() == Phase::Published {
                    reports_published(*final(self), r)
                } else {
                    final(self).requests(final(self).state(), r)
                },
                Event::Failed { error } => if old(self).state() == Phase::Bound {
                    aborts_with(r, "Cannot access private socket file"@)
                } else {
                    r == (Action::Abort { error: RustFdkError::Io(error) })
                },
            },
    {
        match event {
            Event::Succeeded => match self.phase {
                Phase::Unbound => {
                    self.phase = Phase::Bound;
                    self.pending_action()
                },
                Phase::Bound => {
                    self.phase = Phase::Opened;
                    self.pending_action()
                },
                Phase::Opened => {
                    self.phase = Phase::Widened;
                    self.pending_action()
                },
                Phase::Widened => {
                    self.phase = Phase::Published;
                    let mut line = "Listening on ".to_owned();
                    line.append(self.private_socket_path.as_str());
                    line.append("->");
                    line.append(self.socket_path.as_str());
                    Action::Done { message: self.runner.debug(line.as_str()) }
                },
                _ => Action::Idle,
            },
            Event::Failed { error } => match self.phase {
                Phase::Published | Phase::Failed => Action::Idle,
                Phase::Bound => {
                    self.phase = Phase::Failed;
                    let err = FdkError::new("Cannot access private socket file");
                    Action::Abort { error: RustFdkError::Fdk(err) }
                },
                _ => {
                    self.phase = Phase::Failed;
                    Action::Abort { error: RustFdkError::Io(error) }
                },
            },
        }
    }
}


/// What a run from `Unbound` has been through, by the phase it reached.
proof fn lemma_run_history(oks: Seq<bool>)
    ensures
        run(Phase::Unbound, oks) == Phase::Unbound ==> oks.len() == 0,
        run(Phase::Unbound, oks) == Phase::Bound ==> oks == seq![true],
        run(Phase::Unbound, oks) == Phase::Opened ==> oks == seq![true, true],
        run(Phase::Unbound, oks) == Phase::Widened ==> oks == seq![true, true, true],
        run(Phase::Unbound, oks) == Phase::Published ==> oks.len() >= 4 && oks.take(4) == seq![
            true,
            true,
            true,
            true,
        ],
    decreases oks.len(),
{
    if oks.len() > 0 {
        let prev = oks.drop_last();
        lemma_run_history(prev);
        assert(oks =~= prev.push(oks.last()));
        if run(Phase::Unbound, oks) == Phase::Published && run(Phase::Unbound, prev)
            == Phase::Published {
            assert(oks.take(4) =~= prev.take(4));
        }
    }
}

/// A failed bind ends the run: whatever is reported after it, the socket is
/// never opened, widened, linked or published.
pub proof fn lemma_failed_bind_ends_run(oks: Seq<bool>)
    requires
        oks.len() > 0,
        !oks[0],
    ensures
        run(Phase::Unbound, oks) == Phase::Failed,
    decreases oks.len(),
{
    reveal_with_fuel(run, 2);
    if oks.len() > 1 {
        assert(oks.drop_last()[0] == oks[0]);
        lemma_failed_bind_ends_run(oks.drop_last());
    }
}

/// The symbolic link is requested only in phase `Widened`, and a run
/// reaches that phase exactly when binding, opening and widening have each
/// been reported done, in that order, and nothing else: the public path is
/// never linked before the private socket is bound.
pub proof fn lemma_link_only_after_bind(l: FdkListener, p: Phase, a: Action, oks: Seq<bool>)
    ensures
        l.requests(p, a) && a is Symlink ==> p == Phase::Widened,
        run(Phase::Unbound, oks) == Phase::Widened <==> oks == seq![true, true, true],
{
    lemma_run_history(oks);
    reveal_with_fuel(run, 4);
    if oks == seq![true, true, true] {
        assert(oks.drop_last() =~= seq![true, true]);
        assert(oks.drop_last().drop_last() =~= seq![true]);
        assert(oks.drop_last().drop_last().drop_last() =~= Seq::<bool>::empty());
    }
}

/// A run that reaches `Published` had its first four steps reported done:
/// the socket was bound, its file opened, given mode `0o666` (read and write
/// for all), and then linked from the public path to the private one.
pub proof fn lemma_published_run(l: FdkListener, oks: Seq<bool>, widen: Action, link: Action)
    requires
        run(Phase::Unbound, oks) == Phase::Published,
        l.requests(run(Phase::Unbound, oks.take(2)), widen),
        l.requests(run(Phase::Unbound, oks.take(3)), link),
    ensures
        oks.len() >= 4,
        oks.take(4) == seq![true, true, true, true],
        widen matches Action::SetPermissions { mode } && mode == 0o666,
        link matches Action::Symlink { original, link } && original@ == l.private_path()
            && link@ == l.public_path(),
{
    lemma_run_history(oks);
    reveal_with_fuel(run, 4);
    let four = oks.take(4);
    assert(four[0] && four[1] && four[2]);
    assert(oks.take(2) =~= seq![true, true]);
    assert(oks.take(3) =~= seq![true, true, true]);
    assert(seq![true, true, true].drop_last() =~= seq![true, true]);
    assert(seq![true, true].drop_last() =~= seq![true]);
    assert(seq![true].drop_last() =~= Seq::<bool>::empty());
}

} // verus!
