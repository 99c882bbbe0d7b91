//! One synchronization pass as an explicit state machine.
//!
//! The machine owns every decision the pass makes: which user is next,
//! which URL is fetched, what exact content is written for a response,
//! and the abort-on-first-error policy. The surrounding binary performs
//! the requested network and filesystem actions and feeds each outcome
//! back in; users are processed strictly in configuration order, and a
//! failure for one user stops the remainder of the pass.

use crate::config::Config;
use crate::keys::{keys_url, keys_url_spec, lines_of, parse_keys, render_keys, rendered};
use crate::SyncError;
use vstd::prelude::*;

verus! {

/// The permission bits applied to every written `authorized_keys` file.
pub const AUTHORIZED_KEYS_MODE: u32 = 0o600;

/// One HTTPS GET the pass asks for: the URL and the whole-request
/// timeout in seconds.
#[derive(Clone, Debug, PartialEq)]
pub struct FetchRequest {
    pub url: String,
    pub timeout: u64,
}

/// One file replacement the pass asks for: the account whose
/// `authorized_keys` file is replaced wholesale (and which owns the
/// result), the exact content, and the permission bits.
#[derive(Clone, Debug, PartialEq)]
pub struct WritePlan {
    pub username: String,
    pub content: String,
    pub mode: u32,
}

/// What the driver must do next: perform a fetch, perform a write, or
/// stop — successfully, or with the first error encountered.
#[derive(Clone, Debug, PartialEq)]
pub enum Action {
    Fetch(FetchRequest),
    Write(WritePlan),
    Finish(Option<SyncError>),
}

/// Where a pass stands: waiting for a fetch outcome, waiting for a
/// write outcome, or finished.
#[derive(Clone, Copy, Debug, PartialEq, Eq, Structural)]
pub enum Phase {
    AwaitFetch,
    AwaitWrite,
    Done,
}

/// The state of one pass: the index of the user being processed and the
/// phase within that user's fetch-then-write cycle.
#[derive(Clone, Copy, Debug, PartialEq, Eq, Structural)]
pub struct Pass {
    pub idx: usize,
    pub phase: Phase,
}

/// The URL fetched for user `j`: the configured base joined with that
/// user's effective remote identity.
pub open spec fn fetch_url_spec(config: Config, j: int) -> Seq<char> {
    keys_url_spec(config.github_url_spec(), config.users@[j].effective_identity_spec())
}

/// The exact file content written for a response body: the body's
/// lines, each followed by one newline.
pub open spec fn content_for(body: Seq<char>) -> Seq<char> {
    rendered(lines_of(body))
}

/// The synchronizer: the loaded configuration and the operations that
/// plan one pass over it.
#[derive(Clone, Debug)]
pub struct App {
    pub config: Config,
}

impl App {
    pub fn new(config: Config) -> (app: App)
        ensures
            app.config == config,
    {
        App { config }
    }

    /// The fetch the pass performs for user `j`.
    pub fn fetch_request(&self, j: usize) -> (req: FetchRequest)
        requires
            j < self.config.users@.len(),
        ensures
            req.url@ == fetch_url_spec(self.config, j as int),
            req.timeout == self.config.timeout_spec(),
    {
        let user = &self.config.users[j];
        FetchRequest {
            url: keys_url(self.config.github_url(), user.effective_identity()),
            timeout: self.config.timeout(),
        }
    }

    /// Begins one pass. An empty user list finishes at once,
    /// successfully, with no fetch and no write ever requested;
    /// otherwise the first action is the fetch for the first user.
    pub fn start(&self) -> (r: (Pass, Action))
        ensures
            self.config.users@.len() == 0 ==> r.0.phase == Phase::Done && r.1 == Action::Finish(
                None::<SyncError>,
            ),
            self.config.users@.len() > 0 ==> {
                &&& r.0.phase == Phase::AwaitFetch
                &&& r.0.idx == 0
                &&& r.1 matches Action::Fetch(req) && req.url@ == fetch_url_spec(self.config, 0)
                    && req.timeout == self.config.timeout_spec()
            },
    {
        if self.config.users.len() == 0 {
            (Pass { idx: 0, phase: Phase::Done }, Action::Finish(None))
        } else {
            (Pass { idx: 0, phase: Phase::AwaitFetch }, Action::Fetch(self.fetch_request(0)))
        }
    }
}

impl Pass {
    /// Takes the outcome of the requested fetch. A body, however it
    /// reads, becomes a write plan for the current user: the body's
    /// lines joined back with newlines, restrictive permission bits,
    /// ownership to the user. A fetch failure finishes the pass with
    /// that error; later users are not attempted.
    pub fn on_fetch(&mut self, app: &App, outcome: Result<String, SyncError>) -> (action: Action)
        requires
            old(self).phase == Phase::AwaitFetch,
            old(self).idx < app.config.users@.len(),
        ensures
            final(self).idx == old(self).idx,
            outcome matches Ok(body) ==> {
                &&& final(self).phase == Phase::AwaitWrite
                &&& action matches Action::Write(plan) && plan.username@ == app.config.users@[old(
                    self,
                ).idx as int].username@ && plan.content@ == content_for(body@) && plan.mode
                    == 0o600
            },
            outcome matches Err(e) ==> final(self).phase == Phase::Done && action
                == Action::Finish(Some(e)),
    {
        match outcome {
            Ok(body) => {
                self.phase = Phase::AwaitWrite;
                let keys = parse_keys(body.as_str());
                let content = render_keys(&keys);
                Action::Write(
                    WritePlan {
                        username: app.config.users[self.idx].username.clone(),
                        content,
                        mode: AUTHORIZED_KEYS_MODE,
                    },
                )
            },
            Err(e) => {
                self.phase = Phase::Done;
                Action::Finish(Some(e))
            },
        }
    }

    /// Takes the outcome of the requested write. Success moves on to the
    /// next user in configuration order, or finishes the pass when the
    /// list is exhausted; a write failure finishes the pass with that
    /// error and later users are not attempted.
    pub fn on_write(&mut self, app: &App, outcome: Result<(), SyncError>) -> (action: Action)
        requires
            old(self).phase == Phase::AwaitWrite,
            old(self).idx < app.config.users@.len(),
        ensures
            outcome matches Err(e) ==> final(self).phase == Phase::Done && action
                == Action::Finish(Some(e)),
            outcome is Ok && old(self).idx + 1 < app.config.users@.len() ==> {
                &&& final(self).idx == old(self).idx + 1
                &&& final(self).phase == Phase::AwaitFetch
                &&& action matches Action::Fetch(req) && req.url@ == fetch_url_spec(
                    app.config,
                    old(self).idx + 1,
                ) && req.timeout == app.config.timeout_spec()
            },
            outcome is Ok && old(self).idx + 1 >= app.config.users@.len() ==> final(self).phase
                == Phase::Done && action == Action::Finish(None::<SyncError>),
    {
        match outcome {
            Ok(()) => {
                let n = app.config.users.len();
                if self.idx + 1 < n {
                    self.idx = self.idx + 1;
                    self.phase = Phase::AwaitFetch;
                    Action::Fetch(app.fetch_request(self.idx))
                } else {
                    self.phase = Phase::Done;
                    Action::Finish(None)
                }
            },
            Err(e) => {
                self.phase = Phase::Done;
                Action::Finish(Some(e))
            },
        }
    }
}

/// The write-side decision on an account lookup's outcome: an account
/// that does not exist is `UserNotFound` (and nothing is written for
/// it); a found account's home directory is passed on unchanged.
pub fn resolve_home(username: &str, lookup: Option<String>) -> (r: Result<String, SyncError>)
    ensures
        lookup matches Some(home) ==> (r matches Ok(h) && h@ == home@),
        lookup is None ==> (r matches Err(e) && (e matches SyncError::UserNotFound(u) && u@
            == username@)),
{
    match lookup {
        Some(home) => Ok(home),
        None => Err(SyncError::UserNotFound(username.to_owned())),
    }
}

/// The daemon's inter-pass delay: the unspent remainder of the interval,
/// and zero — no sleep at all — when the pass already ran at least as
/// long as the interval.
pub fn sleep_millis(interval_millis: u64, elapsed_millis: u64) -> (r: u64)
    ensures
        elapsed_millis >= interval_millis ==> r == 0,
        elapsed_millis < interval_millis ==> r == interval_millis - elapsed_millis,
{
    if elapsed_millis < interval_millis {
        interval_millis - elapsed_millis
    } else {
        0
    }
}

/// The configured interval, seconds to milliseconds.
pub fn interval_millis(interval_secs: u64) -> (r: u64)
    requires
        interval_secs * 1000 <= u64::MAX,
    ensures
        r == interval_secs * 1000,
{
    interval_secs * 1000
}

/// Idempotence of the write side: the content a pass plans is a function
/// of the fetched body alone — never of the pass state, the
/// configuration, or what the file held before — and every write
/// replaces the file wholesale, so two passes over an unchanged remote
/// key set plan byte-identical files.
pub proof fn lemma_write_idempotent(body: Seq<char>, again: Seq<char>)
    requires
        body == again,
    ensures
        content_for(body) == content_for(again),
{
}

} // verus!
