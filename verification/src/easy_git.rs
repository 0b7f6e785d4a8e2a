//! What is decided while the crate index is fetched, merged and pushed.

use crate::alike::Alike;
use vstd::prelude::*;

verus! {

/// A remote repository, and who pushes to it.
#[derive(Debug)]
pub struct OriginConfig {
    pub url: String,
    pub username: Option<String>,
    pub password: Option<String>,
}

impl Clone for OriginConfig {
    fn clone(&self) -> (copy: Self)
        ensures
            copy.url@ == self.url@,
            copy.username.model() == self.username.model(),
            copy.password.model() == self.password.model(),
    {
        OriginConfig {
            url: self.url.clone(),
            username: self.username.duplicate(),
            password: self.password.duplicate(),
        }
    }
}

impl OriginConfig {
    /// The mirror of the index at `url`, to which a user pushes.
    pub fn mirror(url: &str, email: &str, password: &str) -> (config: Self)
        ensures
            config.url@ == url@,
            config.username.model() == Some(email@),
            config.password.model() == Some(password@),
    {
        OriginConfig {
            url: url.to_owned(),
            username: Some(email.to_owned()),
            password: Some(password.to_owned()),
        }
    }
}

/// What is to be done with a merge.
#[derive(Debug)]
pub enum MergeOutcome {
    /// Commit it with this message, and push a branch to a mirror.
    Publish { message: String, remote: String, refspec: String, mirror: OriginConfig },
    /// There is nothing to commit: clean up.
    CleanUp,
}

/// What is to be done with a merge that changed `files_changed` files, where
/// the index has `mirror` as its mirror: a merge that changed something is
/// committed, and the main branch is pushed to the mirror.
pub fn merge_outcome(files_changed: usize, mirror: OriginConfig) -> (outcome: MergeOutcome)
    ensures
        match outcome {
            MergeOutcome::Publish { message, remote, refspec, mirror: pushed_to } => files_changed
                > 0 && message@ == "Merge"@ && remote@ == "local"@ && refspec@
                == "refs/heads/master"@ && pushed_to == mirror,
            MergeOutcome::CleanUp => files_changed == 0,
        },
{
    if files_changed > 0 {
        MergeOutcome::Publish {
            message: "Merge".to_owned(),
            remote: "local".to_owned(),
            refspec: "refs/heads/master".to_owned(),
            mirror,
        }
    } else {
        MergeOutcome::CleanUp
    }
}

/// The kinds of credentials that a remote accepts.
#[derive(Clone, Copy, Debug)]
pub struct AcceptedKinds {
    /// A user's name and password.
    pub user_pass_plaintext: bool,
    /// Whatever the user's own configuration gives.
    pub default: bool,
    /// A key for a secure shell.
    pub ssh_key: bool,
}

/// One attempt to get at credentials.
#[derive(Debug)]
pub enum Attempt {
    /// Take this name and password.
    UserPass { username: String, password: String },
    /// Open the user's own configuration.
    OpenConfig,
    /// Ask the helper that the configuration names.
    Helper,
    /// Ask the agent for a key of this user.
    Agent { user: String },
}

/// One attempt to get at credentials.
pub enum AttemptView {
    UserPass { username: Seq<char>, password: Seq<char> },
    OpenConfig,
    Helper,
    Agent { user: Seq<char> },
}

impl View for Attempt {
    type V = AttemptView;

    open spec fn view(&self) -> AttemptView {
        match self {
            Attempt::UserPass { username, password } => AttemptView::UserPass {
                username: username@,
                password: password@,
            },
            Attempt::OpenConfig => AttemptView::OpenConfig,
            Attempt::Helper => AttemptView::Helper,
            Attempt::Agent { user } => AttemptView::Agent { user: user@ },
        }
    }
}

impl Attempt {
    /// A copy of the attempt.
    fn duplicate(&self) -> (copy: Self)
        ensures
            copy@ == self@,
    {
        match self {
            Attempt::UserPass { username, password } => Attempt::UserPass {
                username: username.clone(),
                password: password.clone(),
            },
            Attempt::OpenConfig => Attempt::OpenConfig,
            Attempt::Helper => Attempt::Helper,
            Attempt::Agent { user } => Attempt::Agent { user: user.clone() },
        }
    }
}

/// The attempt with a name and a password, where both are known and accepted.
pub open spec fn user_pass_attempts(
    kinds: AcceptedKinds,
    username: Option<Seq<char>>,
    password: Option<Seq<char>>,
) -> Seq<AttemptView> {
    match (username, password) {
        (Some(username), Some(password)) => if kinds.user_pass_plaintext {
            seq![AttemptView::UserPass { username, password }]
        } else {
            Seq::empty()
        },
        _ => Seq::empty(),
    }
}

/// The attempts with the user's own configuration, where that is accepted.
pub open spec fn default_attempts(kinds: AcceptedKinds) -> Seq<AttemptView> {
    if kinds.default {
        seq![AttemptView::OpenConfig, AttemptView::Helper]
    } else {
        Seq::empty()
    }
}

/// The attempt with a key, where that is accepted and the address names a
/// user.
pub open spec fn agent_attempts(
    kinds: AcceptedKinds,
    user_from_url: Option<Seq<char>>,
) -> Seq<AttemptView> {
    match user_from_url {
        Some(user) => if kinds.ssh_key {
            seq![AttemptView::Agent { user }]
        } else {
            Seq::empty()
        },
        None => Seq::empty(),
    }
}

/// All the attempts, in the order in which they are made.
pub open spec fn attempts(
    kinds: AcceptedKinds,
    username: Option<Seq<char>>,
    password: Option<Seq<char>>,
    user_from_url: Option<Seq<char>>,
) -> Seq<AttemptView> {
    user_pass_attempts(kinds, username, password) + default_attempts(kinds) + agent_attempts(
        kinds,
        user_from_url,
    )
}

/// What is to be done next in a search for credentials.
#[derive(Debug)]
pub enum CredentialStep {
    /// Make this attempt.
    Try(Attempt),
    /// Use what the last attempt gave.
    Use,
    /// Fail with the error of the last attempt.
    FailWithLast,
    /// Fail with this error: nothing could be attempted.
    FailWith(String),
}

/// What is to be done next in a search for credentials.
pub enum StepView {
    Try(AttemptView),
    Use,
    FailWithLast,
    FailWith(Seq<char>),
}

impl View for CredentialStep {
    type V = StepView;

    open spec fn view(&self) -> StepView {
        match self {
            CredentialStep::Try(attempt) => StepView::Try(attempt@),
            CredentialStep::Use => StepView::Use,
            CredentialStep::FailWithLast => StepView::FailWithLast,
            CredentialStep::FailWith(message) => StepView::FailWith(message@),
        }
    }
}

/// The first step of a search that may make the attempts in `attempts`.
pub open spec fn first_step(attempts: Seq<AttemptView>, url: Seq<char>) -> StepView {
    if attempts.len() == 0 {
        StepView::FailWith("Failed to find credentials for "@ + url)
    } else {
        StepView::Try(attempts[0])
    }
}

/// The step after the attempt at `i`. What an attempt gives is used, but that
/// an opened configuration only leads on to the helper. Where an attempt fails
/// the next is made, but that a configuration that cannot be opened ends the
/// search.
pub open spec fn step_after(attempts: Seq<AttemptView>, i: int, succeeded: bool) -> StepView {
    let opened = attempts[i] is OpenConfig;
    if succeeded && !opened {
        StepView::Use
    } else if !succeeded && opened || i + 1 >= attempts.len() {
        StepView::FailWithLast
    } else {
        StepView::Try(attempts[i + 1])
    }
}

/// A search for credentials for a remote repository.
#[derive(Debug)]
pub struct CredentialSearch {
    attempts: Vec<Attempt>,
    made: usize,
}

/// The attempts of a search, and how many of them have been made.
pub struct SearchView {
    pub attempts: Seq<AttemptView>,
    pub made: nat,
}

impl View for CredentialSearch {
    type V = SearchView;

    closed spec fn view(&self) -> SearchView {
        SearchView {
            attempts: self.attempts@.map_values(|attempt: Attempt| attempt@),
            made: self.made as nat,
        }
    }
}

/// The step after the last attempt of `search` succeeded or failed. Without
/// any attempt the search has failed.
pub open spec fn next_step(search: SearchView, succeeded: bool) -> StepView {
    if search.made == 0 {
        StepView::FailWithLast
    } else {
        step_after(search.attempts, search.made - 1, succeeded)
    }
}

impl CredentialSearch {
    #[verifier::type_invariant]
    spec fn attempts_were_made_in_order(self) -> bool {
        self.made <= self.attempts@.len()
    }

    /// Begins a search for credentials for the remote at `url`: the first step
    /// to be done.
    pub fn begin(
        url: &str,
        user_from_url: Option<&str>,
        kinds: AcceptedKinds,
        origin_config: &OriginConfig,
    ) -> (begun: (Self, CredentialStep))
        ensures
            ({
                let all = attempts(
                    kinds,
                    origin_config.username.model(),
                    origin_config.password.model(),
                    match user_from_url {
                        Some(user) => Some(user@),
                        None => None,
                    },
                );
                &&& begun.0@.attempts == all
                &&& begun.0@.made == if all.len() == 0 {
                    0nat
                } else {
                    1
                }
                &&& begun.1@ == first_step(all, url@)
            }),
    {
        let mut attempts: Vec<Attempt> = Vec::new();
        if kinds.user_pass_plaintext {
            if let (Some(username), Some(password)) = (
                &origin_config.username,
                &origin_config.password,
            ) {
                attempts.push(
                    Attempt::UserPass { username: username.clone(), password: password.clone() },
                );
            }
        }
        if kinds.default {
            attempts.push(Attempt::OpenConfig);
            attempts.push(Attempt::Helper);
        }
        if kinds.ssh_key {
            if let Some(user) = user_from_url {
                attempts.push(Attempt::Agent { user: user.to_owned() });
            }
        }
        let step = if attempts.len() == 0 {
            let mut message = "Failed to find credentials for ".to_owned();
            message.append(url);
            CredentialStep::FailWith(message)
        } else {
            CredentialStep::Try(attempts[0].duplicate())
        };
        let made: usize = if attempts.len() == 0 {
            0
        } else {
            1
        };
        let search = CredentialSearch { attempts, made };
        proof {
            let all = crate::easy_git::attempts(
                kinds,
                origin_config.username.model(),
                origin_config.password.model(),
                match user_from_url {
                    Some(user) => Some(user@),
                    None => None,
                },
            );
            assert(search@.attempts =~= all);
        }
        (search, step)
    }

    /// Goes on after the last attempt succeeded or failed: the next step.
    pub fn next(&mut self, succeeded: bool) -> (step: CredentialStep)
        ensures
            step@ == next_step(old(self)@, succeeded),
            final(self)@ == (SearchView {
                made: if step@ is Try {
                    old(self)@.made + 1
                } else {
                    old(self)@.made
                },
                ..old(self)@
            }),
    {
        proof {
            use_type_invariant(&*self);
        }
        if self.made == 0 {
            return CredentialStep::FailWithLast;
        }
        let i: usize = self.made - 1;
        assert(self@.attempts[i as int] == self.attempts@[i as int]@);
        let opened = match &self.attempts[i] {
            Attempt::OpenConfig => true,
            _ => false,
        };
        if succeeded && !opened {
            CredentialStep::Use
        } else if !succeeded && opened || self.made >= self.attempts.len() {
            CredentialStep::FailWithLast
        } else {
            let attempt = self.attempts[self.made].duplicate();
            assert(self@.attempts[self.made as int] == self.attempts@[self.made as int]@);
            self.made = self.made + 1;
            CredentialStep::Try(attempt)
        }
    }
}

/// As long as no credentials are found, every attempt is made, one after the
/// other, and the search fails with the error of the last one.
pub proof fn law_every_attempt_is_made(
    kinds: AcceptedKinds,
    username: Option<Seq<char>>,
    password: Option<Seq<char>>,
    user_from_url: Option<Seq<char>>,
    url: Seq<char>,
    i: int,
)
    requires
        0 <= i < attempts(kinds, username, password, user_from_url).len(),
    ensures
        ({
            let all = attempts(kinds, username, password, user_from_url);
            &&& first_step(all, url) == StepView::Try(all[0])
            &&& step_after(all, i, all[i] is OpenConfig) == if i + 1 < all.len() {
                StepView::Try(all[i + 1])
            } else {
                StepView::FailWithLast
            }
        }),
{
}

/// An opened configuration is always followed by its helper, and where it
/// cannot be opened the search ends, whatever else could have been attempted.
pub proof fn law_configuration_decides(
    kinds: AcceptedKinds,
    username: Option<Seq<char>>,
    password: Option<Seq<char>>,
    user_from_url: Option<Seq<char>>,
    i: int,
)
    requires
        0 <= i < attempts(kinds, username, password, user_from_url).len(),
        attempts(kinds, username, password, user_from_url)[i] is OpenConfig,
    ensures
        ({
            let all = attempts(kinds, username, password, user_from_url);
            &&& step_after(all, i, true) == StepView::Try(AttemptView::Helper)
            &&& step_after(all, i, false) == StepView::FailWithLast
        }),
{
}

} // verus!
