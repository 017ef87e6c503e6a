//! The launcher's shared session state: launch generation, readiness, the
//! chosen port and the plugin flags that the log stream raised.
use vstd::prelude::*;
use crate::text::{decimal, decimal_string, concat3};

verus! {

/// The host DSH binds to (loopback only).
pub const DSH_HOST: &'static str = "127.0.0.1";

/// The DSH web URL for a port: `http://127.0.0.1:<port>`.
pub open spec fn url_of(port: u16) -> Seq<char> {
    "http://"@ + DSH_HOST@ + ":"@ + decimal(port as nat)
}

/// The DSH web URL for a port.
pub fn dsh_url(port: u16) -> (s: String)
    ensures
        s@ == url_of(port),
{
    let mut s = concat3("http://", DSH_HOST, ":");
    crate::text::append(&mut s, decimal_string(port as u64).as_str());
    s
}

/// Flags raised by the log stream of the current run.
#[derive(PartialEq, Eq, Structural, Clone, Copy, Debug)]
pub struct LaunchFlags {
    /// A plugin failed to load (a conflict with the running DSH).
    pub plugin_conflict: bool,
    /// A package could not be resolved at all (incomplete cache).
    pub plugin_missing: bool,
}

/// What polling the child process found.
#[derive(PartialEq, Eq, Structural, Clone, Copy, Debug)]
pub enum ChildPoll {
    /// No child is registered.
    NoChild,
    /// The child is still running.
    Running,
    /// The child has exited.
    Exited,
    /// The poll itself failed.
    PollFailed,
}

/// Whether the DSH child process has exited: only a poll that saw it exit
/// counts.
pub fn child_exited(poll: ChildPoll) -> (b: bool)
    ensures
        b == (poll == ChildPoll::Exited),
{
    match poll {
        ChildPoll::Exited => true,
        _ => false,
    }
}

/// The generation after `g` (it wraps around, as an atomic increment does).
pub open spec fn next_generation(g: u64) -> u64 {
    if g == u64::MAX {
        0
    } else {
        (g + 1) as u64
    }
}

fn bump(g: u64) -> (r: u64)
    ensures
        r == next_generation(g),
{
    if g == u64::MAX {
        0
    } else {
        g + 1
    }
}

/// The launcher state shared by the launch, supervision and command paths.
#[derive(PartialEq, Eq, Structural, Clone, Copy, Debug)]
pub struct SessionState {
    /// Launch-session generation; bumped on every (re)start or kill request.
    pub generation: u64,
    /// Whether DSH has been detected as ready.
    pub ready: bool,
    /// The port chosen for the current run.
    pub port: Option<u16>,
    /// Flags raised by the log stream of the current run.
    pub flags: LaunchFlags,
    /// Automatic restarts performed since the budget was last re-armed.
    pub auto_restarts: u32,
}

impl SessionState {
    /// The state before anything was launched.
    pub fn new() -> (s: SessionState)
        ensures
            s.generation == 0,
            !s.ready,
            s.port is None,
            s.flags == (LaunchFlags { plugin_conflict: false, plugin_missing: false }),
            s.auto_restarts == 0,
    {
        SessionState {
            generation: 0,
            ready: false,
            port: None,
            flags: LaunchFlags { plugin_conflict: false, plugin_missing: false },
            auto_restarts: 0,
        }
    }

    /// Whether a supervisor of generation `g` may still act.
    pub fn is_current(&self, g: u64) -> (b: bool)
        ensures
            b == (self.generation == g),
    {
        self.generation == g
    }

    /// A (re)start request: a new session that invalidates every supervisor of
    /// an older one, with readiness, log flags and restart budget cleared.
    /// Returns the new session's generation.
    pub fn begin_session(&mut self) -> (g: u64)
        ensures
            g == next_generation(old(self).generation),
            *final(self) == (SessionState {
                generation: g,
                ready: false,
                port: old(self).port,
                flags: LaunchFlags { plugin_conflict: false, plugin_missing: false },
                auto_restarts: 0,
            }),
    {
        self.generation = bump(self.generation);
        self.ready = false;
        self.flags = LaunchFlags { plugin_conflict: false, plugin_missing: false };
        self.auto_restarts = 0;
        self.generation
    }

    /// A kill request: stops any supervisor, forgets the port and readiness.
    pub fn kill(&mut self)
        ensures
            *final(self) == (SessionState {
                generation: next_generation(old(self).generation),
                ready: false,
                port: None,
                ..*old(self)
            }),
    {
        self.generation = bump(self.generation);
        self.ready = false;
        self.port = None;
    }

    /// The generation moves on without touching anything else (used before
    /// clearing the cache).
    pub fn supersede(&mut self)
        ensures
            *final(self) == (SessionState {
                generation: next_generation(old(self).generation),
                ..*old(self)
            }),
    {
        self.generation = bump(self.generation);
    }

    /// The child has been stopped and waited for: no port, not ready; the
    /// generation is left to the caller.
    pub fn child_stopped(&mut self)
        ensures
            *final(self) == (SessionState { ready: false, port: None, ..*old(self) }),
    {
        self.ready = false;
        self.port = None;
    }

    /// A new run of the child begins: the log flags of an earlier run are
    /// cleared.
    pub fn clear_log_flags(&mut self)
        ensures
            *final(self) == (SessionState {
                flags: LaunchFlags { plugin_conflict: false, plugin_missing: false },
                ..*old(self)
            }),
    {
        self.flags = LaunchFlags { plugin_conflict: false, plugin_missing: false };
    }

    /// The port chosen for the run about to be spawned.
    pub fn set_port(&mut self, port: u16)
        ensures
            *final(self) == (SessionState { port: Some(port), ..*old(self) }),
    {
        self.port = Some(port);
    }

    /// Records how many automatic restarts have been made.
    pub fn record_auto_restarts(&mut self, count: u32)
        ensures
            *final(self) == (SessionState { auto_restarts: count, ..*old(self) }),
    {
        self.auto_restarts = count;
    }

    /// Sets the readiness flag.
    pub fn set_ready(&mut self, ready: bool)
        ensures
            *final(self) == (SessionState { ready, ..*old(self) }),
    {
        self.ready = ready;
    }

    /// Re-arms the automatic-restart budget.
    pub fn reset_auto_restarts(&mut self)
        ensures
            *final(self) == (SessionState { auto_restarts: 0, ..*old(self) }),
    {
        self.auto_restarts = 0;
    }

    /// The port of the current run, or 0 when there is none.
    pub fn current_port(&self) -> (p: u16)
        ensures
            p == (match self.port {
                Some(p) => p,
                None => 0u16,
            }),
    {
        match self.port {
            Some(p) => p,
            None => 0,
        }
    }
}

/// The current DSH web URL (port 0 when none was chosen).
pub fn get_dsh_url(state: &SessionState) -> (s: String)
    ensures
        s@ == url_of(
            match state.port {
                Some(p) => p,
                None => 0u16,
            },
        ),
{
    dsh_url(state.current_port())
}

/// A session begun by a start request supersedes every older generation:
/// a supervisor holding the previous generation is no longer current.
pub proof fn lemma_new_session_supersedes(g: u64)
    ensures
        next_generation(g) != g,
{
}

} // verus!
