//! The configuration model: the list of sync targets and the tunables,
//! with defaults applied through accessors so that an absent field and
//! an explicitly written default stay distinguishable in the stored form.

use vstd::prelude::*;

verus! {

/// One sync target: a local account and, optionally, the remote identity
/// whose published keys it receives.
#[derive(Clone, Debug)]
pub struct User {
    pub username: String,
    pub github_username: Option<String>,
}

impl User {
    /// The identity whose keys are fetched: the explicit remote identity
    /// when one is configured, the local username otherwise.
    pub open spec fn effective_identity_spec(&self) -> Seq<char> {
        match self.github_username {
            Some(g) => g@,
            None => self.username@,
        }
    }

    pub fn effective_identity(&self) -> (r: &str)
        ensures
            r@ == self.effective_identity_spec(),
    {
        match &self.github_username {
            Some(g) => g.as_str(),
            None => self.username.as_str(),
        }
    }

    /// Whether fetching for this user falls back to the local username
    /// for want of an explicit remote identity (worth a warning in logs).
    pub fn falls_back(&self) -> (r: bool)
        ensures
            r == self.github_username is None,
    {
        self.github_username.is_none()
    }
}

/// With no explicit remote identity, the identity fetched is exactly the
/// local username.
pub proof fn lemma_identity_fallback(user: User)
    requires
        user.github_username is None,
    ensures
        user.effective_identity_spec() == user.username@,
{
}

#[derive(Clone, Debug)]
pub struct Config {
    pub github_url: Option<String>,
    pub users: Vec<User>,
    pub timeout: Option<u64>,
    pub interval: Option<u64>,
}

impl Config {
    /// The base URL keys are fetched from, with its default.
    pub open spec fn github_url_spec(&self) -> Seq<char> {
        match self.github_url {
            Some(u) => u@,
            None => "https://github.com"@,
        }
    }

    pub fn github_url(&self) -> (r: &str)
        ensures
            r@ == self.github_url_spec(),
    {
        match &self.github_url {
            Some(u) => u.as_str(),
            None => "https://github.com",
        }
    }

    /// The whole-request HTTP timeout in seconds, with its default.
    pub open spec fn timeout_spec(&self) -> u64 {
        match self.timeout {
            Some(t) => t,
            None => 10,
        }
    }

    pub fn timeout(&self) -> (r: u64)
        ensures
            r == self.timeout_spec(),
    {
        match self.timeout {
            Some(t) => t,
            None => 10,
        }
    }

    /// The daemon poll interval in seconds, with its default.
    pub open spec fn interval_spec(&self) -> u64 {
        match self.interval {
            Some(i) => i,
            None => 60,
        }
    }

    pub fn interval(&self) -> (r: u64)
        ensures
            r == self.interval_spec(),
    {
        match self.interval {
            Some(i) => i,
            None => 60,
        }
    }

    /// Every target's local username is non-empty, so every effective
    /// remote identity is non-empty as well.
    pub open spec fn wf(&self) -> bool {
        forall|j: int| 0 <= j < self.users@.len() ==> self.users@[j].username@.len() > 0
    }

    /// Checks the stored form against the configuration invariant.
    pub fn validate(&self) -> (ok: bool)
        ensures
            ok == self.wf(),
    {
        let mut j: usize = 0;
        while j < self.users.len()
            invariant
                0 <= j <= self.users@.len(),
                forall|k: int| 0 <= k < j ==> self.users@[k].username@.len() > 0,
            decreases self.users@.len() - j,
        {
            if self.users[j].username.as_str().is_empty() {
                return false;
            }
            j += 1;
        }
        true
    }
}

} // verus!
