//! Merging the crate index, and finding credentials to push it.

use crate::alike::Alike;
use crate::easy_git;
use crate::easy_git::{
    AcceptedKinds, Attempt, AttemptView, CredentialSearch, CredentialStep, MergeOutcome, OriginConfig,
    StepView,
};
use vstd::prelude::*;

verus! {

/// The step with a key, where the remote accepts one and the address names a
/// user, and otherwise `otherwise`.
pub open spec fn agent_or(
    kinds: AcceptedKinds,
    user_from_url: Option<&str>,
    otherwise: StepView,
) -> StepView {
    if kinds.ssh_key && user_from_url is Some {
        StepView::Try(AttemptView::Agent { user: user_from_url->Some_0@ })
    } else {
        otherwise
    }
}

/// The step with the user's configuration, where the remote accepts that, and
/// otherwise the one with a key.
pub open spec fn configuration_or_agent_or(
    kinds: AcceptedKinds,
    user_from_url: Option<&str>,
    otherwise: StepView,
) -> StepView {
    if kinds.default {
        StepView::Try(AttemptView::OpenConfig)
    } else {
        agent_or(kinds, user_from_url, otherwise)
    }
}

/// Whether `step` is the one that `meant` stands for: the same attempt, with
/// the same name, password or user, or the same end of the search.
pub open spec fn is_step(step: CredentialStep, meant: StepView) -> bool {
    match step {
        CredentialStep::Try(Attempt::UserPass { username, password }) => meant == StepView::Try(
            AttemptView::UserPass { username: username@, password: password@ },
        ),
        CredentialStep::Try(Attempt::OpenConfig) => meant == StepView::Try(AttemptView::OpenConfig),
        CredentialStep::Try(Attempt::Helper) => meant == StepView::Try(AttemptView::Helper),
        CredentialStep::Try(Attempt::Agent { user }) => meant == StepView::Try(
            AttemptView::Agent { user: user@ },
        ),
        CredentialStep::Use => meant == StepView::Use,
        CredentialStep::FailWithLast => meant == StepView::FailWithLast,
        CredentialStep::FailWith(message) => meant == StepView::FailWith(message@),
    }
}

/// Where a name and a password are configured and the remote accepts them, they
/// are tried first, whatever else it accepts. Otherwise the first step is the
/// user's configuration, where that is accepted, and else a key, where that is
/// accepted and the address names a user. Each of these is tried on its own
/// account, and where there is none the error names the address.
pub proof fn law_first_attempt(
    url: &str,
    user_from_url: Option<&str>,
    kinds: AcceptedKinds,
    config: &OriginConfig,
    begun: (CredentialSearch, CredentialStep),
)
    requires
        call_ensures(CredentialSearch::begin, (url, user_from_url, kinds, config), begun),
    ensures
        kinds.user_pass_plaintext && config.username is Some && config.password is Some
            ==> is_step(
            begun.1,
            StepView::Try(
                AttemptView::UserPass {
                    username: config.username->Some_0@,
                    password: config.password->Some_0@,
                },
            ),
        ),
        !(kinds.user_pass_plaintext && config.username is Some && config.password is Some)
            ==> is_step(
            begun.1,
            configuration_or_agent_or(
                kinds,
                user_from_url,
                StepView::FailWith("Failed to find credentials for "@ + url@),
            ),
        ),
        begun.1@ is Try <==> begun.0@.made == 1,
        begun.1@ is FailWith <==> begun.0@.made == 0,
        begun.1@ is Try ==> begun.0@.attempts[0] == begun.1@->Try_0,
{
}

/// What follows on each attempt. Credentials that were found are used. A name
/// and a password that were refused are followed by the user's configuration
/// or a key, as the remote accepts them; an opened configuration by its helper;
/// a helper that failed by a key; and where nothing is left, or the
/// configuration cannot be opened, the search fails.
pub proof fn law_next_attempt(
    url: &str,
    user_from_url: Option<&str>,
    kinds: AcceptedKinds,
    config: &OriginConfig,
    begun: (CredentialSearch, CredentialStep),
    search: &mut CredentialSearch,
    succeeded: bool,
    step: CredentialStep,
)
    requires
        call_ensures(CredentialSearch::begin, (url, user_from_url, kinds, config), begun),
        old(search)@.attempts == begun.0@.attempts,
        1 <= old(search)@.made <= old(search)@.attempts.len(),
        call_ensures(CredentialSearch::next, (search, succeeded), step),
    ensures
        ({
            let last = old(search)@.attempts[old(search)@.made - 1];
            &&& succeeded && !(last is OpenConfig) ==> is_step(step, StepView::Use)
            &&& succeeded && last is OpenConfig ==> is_step(
                step,
                StepView::Try(AttemptView::Helper),
            )
            &&& !succeeded && last is UserPass ==> is_step(
                step,
                configuration_or_agent_or(kinds, user_from_url, StepView::FailWithLast),
            )
            &&& !succeeded && last is OpenConfig ==> is_step(step, StepView::FailWithLast)
            &&& !succeeded && last is Helper ==> is_step(
                step,
                agent_or(kinds, user_from_url, StepView::FailWithLast),
            )
            &&& !succeeded && last is Agent ==> is_step(step, StepView::FailWithLast)
        }),
        final(search)@.attempts == old(search)@.attempts,
        step@ is Try ==> final(search)@.made == old(search)@.made + 1
            && final(search)@.attempts[old(search)@.made as int] == step@->Try_0,
        !(step@ is Try) ==> final(search)@.made == old(search)@.made,
{
}

/// Without an attempt there is nothing to go on with.
pub proof fn law_nothing_follows_on_no_attempt(
    search: &mut CredentialSearch,
    succeeded: bool,
    step: CredentialStep,
)
    requires
        old(search)@.made == 0,
        call_ensures(CredentialSearch::next, (search, succeeded), step),
    ensures
        is_step(step, StepView::FailWithLast),
        final(search)@ == old(search)@,
{
}

/// A copy of a remote repository's configuration is the same in every part.
pub proof fn law_configuration_is_copied(config: &OriginConfig, copy: OriginConfig)
    requires
        call_ensures(OriginConfig::clone, (config,), copy),
    ensures
        copy.url@ == config.url@,
        config.username is Some <==> copy.username is Some,
        config.username is Some ==> copy.username->Some_0@ == config.username->Some_0@,
        config.password is Some <==> copy.password is Some,
        config.password is Some ==> copy.password->Some_0@ == config.password->Some_0@,
{
    assert(copy.username.model() == config.username.model());
    assert(copy.password.model() == config.password.model());
}

/// A merge that changed any file is committed and its branch pushed to the
/// mirror that was given. One that changed none is cleaned up after.
pub proof fn law_changes_are_published(
    files_changed: usize,
    mirror: OriginConfig,
    outcome: MergeOutcome,
)
    requires
        call_ensures(easy_git::merge_outcome, (files_changed, mirror), outcome),
    ensures
        outcome is CleanUp <==> files_changed == 0,
        outcome is Publish ==> outcome->mirror == mirror,
        outcome is Publish ==> outcome->message@ == "Merge"@,
        outcome is Publish ==> outcome->remote@ == "local"@,
        outcome is Publish ==> outcome->refspec@ == "refs/heads/master"@,
{
}

/// The mirror is at the address given, and is pushed to by the user given.
pub proof fn law_mirror_is_the_one_given(
    url: &str,
    email: &str,
    password: &str,
    config: OriginConfig,
)
    requires
        call_ensures(OriginConfig::mirror, (url, email, password), config),
    ensures
        config.url@ == url@,
        config.username is Some && config.username->Some_0@ == email@,
        config.password is Some && config.password->Some_0@ == password@,
{
    assert(config.username.model() == Some(email@));
    assert(config.password.model() == Some(password@));
}

} // verus!
