//! How credential requests are answered while authenticating to a remote.
//!
//! A network operation asks for credentials through a callback, possibly
//! several times. The first session answers from what is configured; when
//! the server asks for a username that the url does not carry, that session
//! is abandoned and new sessions are run, one per candidate username, each
//! offering the ssh agent's key for that username.
use vstd::prelude::*;

verus! {

/// The kinds of credential a request accepts.
#[derive(Clone, Copy, Debug, PartialEq, Eq)]
pub struct AllowedCredentials {
    pub username: bool,
    pub ssh_key: bool,
    pub user_pass_plaintext: bool,
    pub default: bool,
}

/// How to answer one credential request.
#[derive(Debug)]
pub enum CredentialAction {
    /// Refuse, ending this session so that usernames are tried in later ones.
    RetryWithUsernames,
    /// Offer the key the ssh agent holds for this username.
    SshKeyFromAgent(String),
    /// Offer what the configured credential helper gives for the request.
    CredentialHelper,
    /// Offer the default credential.
    DefaultCredential,
    /// Offer this username.
    Username(String),
    /// Refuse: nothing to offer.
    NoAuthenticationAvailable,
}

impl CredentialAction {
    pub open spec fn spec_refusal_message(self) -> Option<Seq<char>> {
        match self {
            CredentialAction::RetryWithUsernames => Some("gonna try usernames later"@),
            CredentialAction::NoAuthenticationAvailable => Some("no authentication available"@),
            _ => None,
        }
    }

    /// The error message that a refusal carries; `None` for an offer.
    pub fn refusal_message(&self) -> (res: Option<&'static str>)
        ensures
            match res {
                Some(m) => self.spec_refusal_message() == Some(m@),
                None => self.spec_refusal_message() is None,
            },
    {
        match self {
            CredentialAction::RetryWithUsernames => Some("gonna try usernames later"),
            CredentialAction::NoAuthenticationAvailable => Some("no authentication available"),
            _ => None,
        }
    }
}

/// The user name "git", tried last.
pub open spec fn git_user() -> Seq<char> {
    "git"@
}

/// Abstract state of an authentication attempt.
pub struct AuthSessionView {
    /// Some credential request was made in the first session.
    pub any_attempts: bool,
    /// The first session was asked for a username.
    pub ssh_username_requested: bool,
    /// The ssh agent was offered in the first session.
    pub tried_sshkey: bool,
    /// Whether the credential helper failed, once it has been asked.
    pub cred_helper_bad: Option<bool>,
    /// Usernames for which the ssh agent's key was offered, in order.
    pub ssh_agent_attempts: Seq<Seq<char>>,
    /// Usernames still to try; the last is tried next.
    pub candidates: Seq<Seq<char>>,
    /// The username of the session that runs now, in the retry phase.
    pub current: Option<Seq<char>>,
    /// Key requests in the current retry session, counted up to 3.
    pub key_requests: nat,
}

/// State of an authentication attempt against one url.
pub struct AuthSession {
    any_attempts: bool,
    ssh_username_requested: bool,
    tried_sshkey: bool,
    cred_helper_bad: Option<bool>,
    ssh_agent_attempts: Vec<String>,
    candidates: Vec<String>,
    current: Option<String>,
    key_requests: u8,
}

pub open spec fn strings_view(v: Seq<String>) -> Seq<Seq<char>> {
    v.map_values(|s: String| s@)
}

pub open spec fn opt_str_view(s: Option<&str>) -> Option<Seq<char>> {
    match s {
        Some(v) => Some(v@),
        None => None,
    }
}

pub open spec fn opt_string_view(s: Option<String>) -> Option<Seq<char>> {
    match s {
        Some(v) => Some(v@),
        None => None,
    }
}

pub open spec fn opt_as_seq(s: Option<Seq<char>>) -> Seq<Seq<char>> {
    match s {
        Some(v) => seq![v],
        None => Seq::empty(),
    }
}

/// Whether a first-session request is answered with the ssh agent's key.
pub open spec fn uses_agent(allowed: AllowedCredentials, tried_sshkey: bool) -> bool {
    !allowed.username && allowed.ssh_key && !tried_sshkey
}

pub open spec fn offers_agent_key(action: CredentialAction, username: Seq<char>) -> bool {
    match action {
        CredentialAction::SshKeyFromAgent(u) => u@ == username,
        _ => false,
    }
}

pub open spec fn offers_username(action: CredentialAction, username: Seq<char>) -> bool {
    match action {
        CredentialAction::Username(u) => u@ == username,
        _ => false,
    }
}

/// The answer to a request of the first session: a username request ends
/// the session; then the ssh agent, once; then the credential helper; then
/// the default credential.
pub open spec fn first_session_answer(
    action: CredentialAction,
    allowed: AllowedCredentials,
    tried_sshkey: bool,
    username: Option<Seq<char>>,
) -> bool {
    if allowed.username {
        action is RetryWithUsernames
    } else if allowed.ssh_key && !tried_sshkey {
        username is Some && offers_agent_key(action, username.unwrap())
    } else if allowed.user_pass_plaintext {
        action is CredentialHelper
    } else if allowed.default {
        action is DefaultCredential
    } else {
        action is NoAuthenticationAvailable
    }
}

/// Whether a request of a retry session counts as a key request.
pub open spec fn is_key_request(allowed: AllowedCredentials) -> bool {
    !allowed.username && allowed.ssh_key
}

pub open spec fn next_key_requests(allowed: AllowedCredentials, key_requests: nat) -> nat {
    if is_key_request(allowed) {
        if key_requests < 3 { key_requests + 1 } else { 3 }
    } else {
        key_requests
    }
}

/// The answer to a request of the retry session for `username`: the username
/// itself when asked for it; the agent's key at the first key request;
/// nothing otherwise.
pub open spec fn retry_session_answer(
    action: CredentialAction,
    allowed: AllowedCredentials,
    key_requests: nat,
    username: Seq<char>,
) -> bool {
    if allowed.username {
        offers_username(action, username)
    } else if allowed.ssh_key && key_requests == 0 {
        offers_agent_key(action, username)
    } else {
        action is NoAuthenticationAvailable
    }
}

impl View for AuthSession {
    type V = AuthSessionView;

    closed spec fn view(&self) -> AuthSessionView {
        AuthSessionView {
            any_attempts: self.any_attempts,
            ssh_username_requested: self.ssh_username_requested,
            tried_sshkey: self.tried_sshkey,
            cred_helper_bad: self.cred_helper_bad,
            ssh_agent_attempts: strings_view(self.ssh_agent_attempts@),
            candidates: strings_view(self.candidates@),
            current: opt_string_view(self.current),
            key_requests: self.key_requests as nat,
        }
    }
}

impl AuthSession {
    /// Whether the view is within what the session can hold.
    pub closed spec fn wf(&self) -> bool {
        self.key_requests <= 3
    }

    /// A session before any credential request.
    pub fn new() -> (res: AuthSession)
        ensures
            res.wf(),
            !res@.any_attempts,
            !res@.ssh_username_requested,
            !res@.tried_sshkey,
            res@.cred_helper_bad is None,
            res@.ssh_agent_attempts == Seq::<Seq<char>>::empty(),
            res@.candidates == Seq::<Seq<char>>::empty(),
            res@.current is None,
            res@.key_requests == 0,
    {
        let res = AuthSession {
            any_attempts: false,
            ssh_username_requested: false,
            tried_sshkey: false,
            cred_helper_bad: None,
            ssh_agent_attempts: Vec::new(),
            candidates: Vec::new(),
            current: None,
            key_requests: 0,
        };
        assert(strings_view(res.ssh_agent_attempts@) =~= Seq::<Seq<char>>::empty());
        assert(strings_view(res.candidates@) =~= Seq::<Seq<char>>::empty());
        res
    }

    /// Answers a credential request of the first session. `username` is the
    /// username the url carries, if any.
    pub fn first_session_request(&mut self, allowed: AllowedCredentials, username: Option<&str>) -> (action: CredentialAction)
        requires
            old(self).wf(),
            uses_agent(allowed, old(self)@.tried_sshkey) ==> username is Some,
        ensures
            final(self).wf(),
            first_session_answer(action, allowed, old(self)@.tried_sshkey, opt_str_view(username)),
            allowed.username ==> action is RetryWithUsernames,
            !allowed.username && !(allowed.ssh_key && !old(self)@.tried_sshkey) && allowed.user_pass_plaintext
                ==> action is CredentialHelper,
            !allowed.username && !(allowed.ssh_key && !old(self)@.tried_sshkey) && !allowed.user_pass_plaintext
                && allowed.default ==> action is DefaultCredential,
            final(self)@.any_attempts,
            final(self)@.ssh_username_requested == (old(self)@.ssh_username_requested || allowed.username),
            final(self)@.tried_sshkey == (old(self)@.tried_sshkey || uses_agent(allowed, old(self)@.tried_sshkey)),
            final(self)@.ssh_agent_attempts == (if uses_agent(allowed, old(self)@.tried_sshkey) {
                old(self)@.ssh_agent_attempts.push(opt_str_view(username).unwrap())
            } else {
                old(self)@.ssh_agent_attempts
            }),
            final(self)@.cred_helper_bad == old(self)@.cred_helper_bad,
            final(self)@.candidates == old(self)@.candidates,
            final(self)@.current == old(self)@.current,
            final(self)@.key_requests == old(self)@.key_requests,
    {
        self.any_attempts = true;
        if allowed.username {
            self.ssh_username_requested = true;
            return CredentialAction::RetryWithUsernames;
        }
        if allowed.ssh_key && !self.tried_sshkey {
            self.tried_sshkey = true;
            let user: &str = match username {
                Some(u) => u,
                None => "",
            };
            let ghost old_attempts = self.ssh_agent_attempts@;
            self.ssh_agent_attempts.push(String::from_str(user));
            assert(strings_view(self.ssh_agent_attempts@) =~= strings_view(old_attempts).push(user@));
            return CredentialAction::SshKeyFromAgent(String::from_str(user));
        }
        if allowed.user_pass_plaintext {
            return CredentialAction::CredentialHelper;
        }
        if allowed.default {
            return CredentialAction::DefaultCredential;
        }
        CredentialAction::NoAuthenticationAvailable
    }

    /// Whether the first session already offered the ssh agent's key.
    pub fn agent_tried(&self) -> (res: bool)
        ensures
            res == self@.tried_sshkey,
    {
        self.tried_sshkey
    }

    /// Records whether the credential helper, once asked, failed.
    pub fn record_helper_outcome(&mut self, failed: bool)
        requires
            old(self).wf(),
        ensures
            final(self).wf(),
            final(self)@ == (AuthSessionView { cred_helper_bad: Some(failed), ..old(self)@ }),
    {
        self.cred_helper_bad = Some(failed);
    }

    /// Prepares the retry phase once the first session is over. Returns
    /// whether usernames are to be tried, which is when the first session
    /// was asked for one. The candidates, tried from the last, are "git",
    /// the account's name (from `USER`, else from `USERNAME`) and the
    /// username the credential helper is configured with.
    pub fn start_username_retries(
        &mut self,
        user_var: Option<String>,
        username_var: Option<String>,
        helper_username: Option<String>,
    ) -> (res: bool)
        requires
            old(self).wf(),
        ensures
            final(self).wf(),
            res == old(self)@.ssh_username_requested,
            res ==> final(self)@ == (AuthSessionView {
                candidates: old(self)@.candidates + seq![git_user()] + opt_as_seq(
                    opt_string_view(account_name(user_var, username_var)),
                ) + opt_as_seq(opt_string_view(helper_username)),
                ..old(self)@
            }),
            !res ==> final(self)@ == old(self)@,
    {
        if !self.ssh_username_requested {
            return false;
        }
        let ghost old_view = self@;
        self.candidates.push(String::from_str("git"));
        let ghost with_git = self.candidates@;
        let account = match user_var {
            Some(u) => Some(u),
            None => username_var,
        };
        match account {
            Some(a) => self.candidates.push(a),
            None => {},
        }
        let ghost with_account = self.candidates@;
        match helper_username {
            Some(h) => self.candidates.push(h),
            None => {},
        }
        proof {
            let acc = opt_string_view(account_name(user_var, username_var));
            let helper = opt_string_view(helper_username);
            assert(strings_view(with_git) =~= old_view.candidates + seq![git_user()]);
            assert(strings_view(with_account) =~= old_view.candidates + seq![git_user()] + opt_as_seq(acc));
            assert(strings_view(self.candidates@) =~= old_view.candidates + seq![git_user()] + opt_as_seq(acc)
                + opt_as_seq(helper));
        }
        true
    }

    /// Starts the retry session for the next candidate username, if any.
    pub fn next_username(&mut self) -> (res: Option<String>)
        requires
            old(self).wf(),
        ensures
            final(self).wf(),
            match res {
                Some(s) => {
                    &&& old(self)@.candidates.len() > 0
                    &&& s@ == old(self)@.candidates.last()
                    &&& final(self)@ == (AuthSessionView {
                        candidates: old(self)@.candidates.drop_last(),
                        current: Some(s@),
                        key_requests: 0,
                        ..old(self)@
                    })
                },
                None => old(self)@.candidates.len() == 0 && final(self)@ == old(self)@,
            },
    {
        let ghost old_c = self.candidates@;
        match self.candidates.pop() {
            Some(s) => {
                assert(strings_view(self.candidates@) =~= strings_view(old_c).drop_last());
                self.current = Some(s.clone());
                self.key_requests = 0;
                Some(s)
            },
            None => None,
        }
    }

    /// Answers a credential request of the current retry session.
    pub fn retry_session_request(&mut self, allowed: AllowedCredentials) -> (action: CredentialAction)
        requires
            old(self).wf(),
            old(self)@.current is Some,
        ensures
            final(self).wf(),
            retry_session_answer(action, allowed, old(self)@.key_requests, old(self)@.current.unwrap()),
            allowed.username ==> offers_username(action, old(self)@.current.unwrap()),
            final(self)@ == (AuthSessionView {
                key_requests: next_key_requests(allowed, old(self)@.key_requests),
                ssh_agent_attempts: if is_key_request(allowed) && old(self)@.key_requests == 0 {
                    old(self)@.ssh_agent_attempts.push(old(self)@.current.unwrap())
                } else {
                    old(self)@.ssh_agent_attempts
                },
                ..old(self)@
            }),
    {
        let name: String = match &self.current {
            Some(s) => s.clone(),
            None => String::new(),
        };
        if allowed.username {
            return CredentialAction::Username(name);
        }
        if allowed.ssh_key {
            if self.key_requests < 3 {
                self.key_requests = self.key_requests + 1;
            }
            if self.key_requests == 1 {
                let ghost old_attempts = self.ssh_agent_attempts@;
                self.ssh_agent_attempts.push(name.clone());
                assert(strings_view(self.ssh_agent_attempts@) =~= strings_view(old_attempts).push(name@));
                return CredentialAction::SshKeyFromAgent(name);
            }
        }
        CredentialAction::NoAuthenticationAvailable
    }

    /// Whether to go on with the next username once the current retry
    /// session is over: only when exactly two key requests were made, that
    /// is when the agent's key for this username was refused and nothing
    /// else went wrong.
    pub fn retry_should_continue(&self) -> (res: bool)
        requires
            self.wf(),
        ensures
            res == (self@.key_requests == 2),
    {
        self.key_requests == 2
    }
}

/// The account's name: `USER` when set, else `USERNAME`.
pub open spec fn account_name(user_var: Option<String>, username_var: Option<String>) -> Option<String> {
    match user_var {
        Some(u) => Some(u),
        None => username_var,
    }
}

} // verus!

verus! {

/// How many times the agent's key is offered over the requests `reqs` of the
/// first session, starting with `tried_sshkey`.
pub open spec fn first_session_agent_offers(tried_sshkey: bool, reqs: Seq<AllowedCredentials>) -> nat
    decreases reqs.len(),
{
    if reqs.len() == 0 {
        0
    } else {
        (if uses_agent(reqs[0], tried_sshkey) { 1nat } else { 0nat }) + first_session_agent_offers(
            tried_sshkey || uses_agent(reqs[0], tried_sshkey),
            reqs.drop_first(),
        )
    }
}

/// The first session offers the ssh agent's key at most once, however many
/// requests come, so that a refused key cannot make it loop.
pub proof fn lemma_first_session_agent_at_most_once(tried_sshkey: bool, reqs: Seq<AllowedCredentials>)
    ensures
        first_session_agent_offers(tried_sshkey, reqs) <= (if tried_sshkey { 0nat } else { 1nat }),
    decreases reqs.len(),
{
    if reqs.len() > 0 {
        lemma_first_session_agent_at_most_once(true, reqs.drop_first());
        lemma_first_session_agent_at_most_once(tried_sshkey, reqs.drop_first());
    }
}

/// How many times the agent's key is offered over the requests `reqs` of a
/// retry session, starting with `key_requests` key requests made.
pub open spec fn retry_session_agent_offers(key_requests: nat, reqs: Seq<AllowedCredentials>) -> nat
    decreases reqs.len(),
{
    if reqs.len() == 0 {
        0
    } else {
        (if is_key_request(reqs[0]) && key_requests == 0 { 1nat } else { 0nat }) + retry_session_agent_offers(
            next_key_requests(reqs[0], key_requests),
            reqs.drop_first(),
        )
    }
}

/// Each retry session offers the agent's key for its username at most once.
pub proof fn lemma_retry_session_agent_at_most_once(key_requests: nat, reqs: Seq<AllowedCredentials>)
    ensures
        retry_session_agent_offers(key_requests, reqs) <= (if key_requests == 0 { 1nat } else { 0nat }),
    decreases reqs.len(),
{
    if reqs.len() > 0 {
        lemma_retry_session_agent_at_most_once(next_key_requests(reqs[0], key_requests), reqs.drop_first());
    }
}

/// The order in which usernames are tried: the credential helper's username,
/// then the account's name, then "git".
pub open spec fn username_try_order(account: Option<Seq<char>>, helper: Option<Seq<char>>) -> Seq<Seq<char>> {
    opt_as_seq(helper) + opt_as_seq(account) + seq![git_user()]
}

/// Taking candidates from the end of the list that `start_username_retries`
/// builds tries them in `username_try_order`.
pub proof fn lemma_usernames_tried_in_order(account: Option<Seq<char>>, helper: Option<Seq<char>>)
    ensures
        (seq![git_user()] + opt_as_seq(account) + opt_as_seq(helper)).reverse()
            == username_try_order(account, helper),
{
    let built = seq![git_user()] + opt_as_seq(account) + opt_as_seq(helper);
    assert(built.reverse() =~= username_try_order(account, helper));
}

} // verus!

verus! {

/// In the first session, a plaintext user/password request that asks for no
/// username and is not answered by the ssh agent (no key asked, or the agent
/// already offered) goes to the credential helper, whether or not the agent
/// was ever tried.
pub proof fn lemma_first_session_plaintext_uses_helper(
    action: CredentialAction,
    allowed: AllowedCredentials,
    tried_sshkey: bool,
    username: Option<Seq<char>>,
)
    requires
        first_session_answer(action, allowed, tried_sshkey, username),
        !allowed.username,
        !(allowed.ssh_key && !tried_sshkey),
        allowed.user_pass_plaintext,
    ensures
        action is CredentialHelper,
{
}

/// In a retry session, every request that accepts a username is answered with
/// the current candidate username, whatever else it accepts.
pub proof fn lemma_retry_session_offers_username(
    action: CredentialAction,
    allowed: AllowedCredentials,
    key_requests: nat,
    username: Seq<char>,
)
    requires
        retry_session_answer(action, allowed, key_requests, username),
        allowed.username,
    ensures
        offers_username(action, username),
{
}

} // verus!
