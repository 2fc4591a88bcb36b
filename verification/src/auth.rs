use crate::text::{begins_with, starts_with};
use vstd::prelude::*;

verus! {

/// Why a capture ended without a redirect.
#[derive(Clone, Copy, Debug, PartialEq, Eq, Structural)]
pub enum AuthError {
    /// The window was closed before the redirect came.
    AuthFlowCancelled,
    /// The page in the window never said it was ready.
    AuthFlowTimedOut,
}

/// What the interceptor does with a navigation.
#[derive(Clone, Copy, Debug, PartialEq, Eq, Structural)]
pub enum Verdict {
    /// Let the window load the address.
    Allow,
    /// Keep the window from loading the address.
    Veto,
    /// Keep the window from loading the address, and hand the address to the waiting caller.
    Capture,
}

/// What the host does after a signal that is no navigation.
#[derive(Clone, Copy, Debug, PartialEq, Eq, Structural)]
pub enum Directive {
    /// Nothing.
    Nothing,
    /// Send the window to the authorization address.
    Navigate,
    /// Wake the waiting caller with this error.
    Fail(AuthError),
    /// Close the window, then wake the waiting caller with this error.
    CloseAndFail(AuthError),
}

/// Where a capture stands.
pub enum AuthStatus {
    /// The window is open; its page has not said yet that it is ready.
    AwaitingReady,
    /// The window was sent to the authorization address.
    AwaitingRedirect,
    /// The redirect came, to this address.
    Captured(Seq<char>),
    /// The window was closed first.
    Cancelled,
    /// The page never became ready.
    TimedOut,
}

/// A capture as its guarantees speak of it.
pub struct AuthState {
    /// The label of the window that the capture opens.
    pub label: Seq<char>,
    /// The address the window is sent to once its page is ready.
    pub authorize: Seq<char>,
    /// What the address of the redirect begins with.
    pub prefix: Seq<char>,
    pub status: AuthStatus,
}

impl AuthState {
    /// A capture that has just opened its window.
    pub open spec fn opened(label: Seq<char>, authorize: Seq<char>, prefix: Seq<char>) -> AuthState {
        AuthState { label, authorize, prefix, status: AuthStatus::AwaitingReady }
    }

    /// The caller is still waiting.
    pub open spec fn pending(self) -> bool {
        self.status is AwaitingReady || self.status is AwaitingRedirect
    }

    /// `url` is an address of the redirect.
    pub open spec fn is_redirect(self, url: Seq<char>) -> bool {
        begins_with(url, self.prefix)
    }

    /// What the interceptor does with a navigation to `url`: an address of the
    /// redirect is never loaded, and the first one that comes while the caller
    /// waits is captured; every other address is loaded.
    pub open spec fn verdict(self, url: Seq<char>) -> Verdict {
        if !self.is_redirect(url) {
            Verdict::Allow
        } else if self.pending() {
            Verdict::Capture
        } else {
            Verdict::Veto
        }
    }

    /// The capture after a navigation to `url`.
    pub open spec fn navigated(self, url: Seq<char>) -> AuthState {
        if self.verdict(url) is Capture {
            AuthState { status: AuthStatus::Captured(url), ..self }
        } else {
            self
        }
    }

    /// The capture after a run of navigations.
    pub open spec fn navigated_all(self, urls: Seq<Seq<char>>) -> AuthState
        decreases urls.len(),
    {
        if urls.len() == 0 {
            self
        } else {
            self.navigated_all(urls.drop_last()).navigated(urls.last())
        }
    }

    /// What the host does when the page says it is ready: the first time, and
    /// only while nothing else has happened, the window is sent on.
    pub open spec fn ready_directive(self) -> Directive {
        if self.status is AwaitingReady {
            Directive::Navigate
        } else {
            Directive::Nothing
        }
    }

    /// The capture after the page said it is ready.
    pub open spec fn readied(self) -> AuthState {
        if self.status is AwaitingReady {
            AuthState { status: AuthStatus::AwaitingRedirect, ..self }
        } else {
            self
        }
    }

    /// What the host does when the wait for readiness has run out.
    pub open spec fn timeout_directive(self) -> Directive {
        if self.status is AwaitingReady {
            Directive::CloseAndFail(AuthError::AuthFlowTimedOut)
        } else {
            Directive::Nothing
        }
    }

    /// The capture after the wait for readiness has run out.
    pub open spec fn timed_out(self) -> AuthState {
        if self.status is AwaitingReady {
            AuthState { status: AuthStatus::TimedOut, ..self }
        } else {
            self
        }
    }

    /// What the host does when the window was closed.
    pub open spec fn close_directive(self) -> Directive {
        if self.pending() {
            Directive::Fail(AuthError::AuthFlowCancelled)
        } else {
            Directive::Nothing
        }
    }

    /// The capture after the window was closed.
    pub open spec fn closed(self) -> AuthState {
        if self.pending() {
            AuthState { status: AuthStatus::Cancelled, ..self }
        } else {
            self
        }
    }

    /// What the waiting caller gets, once it gets anything.
    pub open spec fn resolution(self) -> Option<Result<Seq<char>, AuthError>> {
        match self.status {
            AuthStatus::AwaitingReady | AuthStatus::AwaitingRedirect => None,
            AuthStatus::Captured(url) => Some(Ok(url)),
            AuthStatus::Cancelled => Some(Err(AuthError::AuthFlowCancelled)),
            AuthStatus::TimedOut => Some(Err(AuthError::AuthFlowTimedOut)),
        }
    }
}

enum Phase {
    AwaitingReady,
    AwaitingRedirect,
    Captured(String),
    Cancelled,
    TimedOut,
}

/// One capture of an authorization redirect: a window of its own, an
/// interceptor on its navigations, and a caller that waits for the address of
/// the redirect.
pub struct AuthSession {
    label: String,
    authorize_url: String,
    redirect_prefix: String,
    phase: Phase,
}

impl View for AuthSession {
    type V = AuthState;

    closed spec fn view(&self) -> AuthState {
        AuthState {
            label: self.label@,
            authorize: self.authorize_url@,
            prefix: self.redirect_prefix@,
            status: match self.phase {
                Phase::AwaitingReady => AuthStatus::AwaitingReady,
                Phase::AwaitingRedirect => AuthStatus::AwaitingRedirect,
                Phase::Captured(url) => AuthStatus::Captured(url@),
                Phase::Cancelled => AuthStatus::Cancelled,
                Phase::TimedOut => AuthStatus::TimedOut,
            },
        }
    }
}

impl AuthSession {
    /// Begins a capture: the host opens a window with this label and the
    /// interceptor on it, and waits for the page to say it is ready.
    pub fn open(label: String, authorize_url: String, redirect_prefix: String) -> (session:
        AuthSession)
        ensures
            session@ == AuthState::opened(label@, authorize_url@, redirect_prefix@),
    {
        AuthSession { label, authorize_url, redirect_prefix, phase: Phase::AwaitingReady }
    }

    /// The label of the window that the capture opens.
    pub fn label(&self) -> (label: &str)
        ensures
            label@ == self@.label,
    {
        self.label.as_str()
    }

    /// The address the window is sent to once its page is ready.
    pub fn authorize_url(&self) -> (url: &str)
        ensures
            url@ == self@.authorize,
    {
        self.authorize_url.as_str()
    }

    /// Whether the caller is still waiting.
    pub fn is_pending(&self) -> (pending: bool)
        ensures
            pending == self@.pending(),
    {
        match self.phase {
            Phase::AwaitingReady | Phase::AwaitingRedirect => true,
            _ => false,
        }
    }

    /// The page in the window says it is ready.
    pub fn on_ready(&mut self) -> (directive: Directive)
        ensures
            directive == old(self)@.ready_directive(),
            final(self)@ == old(self)@.readied(),
    {
        match self.phase {
            Phase::AwaitingReady => {
                self.phase = Phase::AwaitingRedirect;
                Directive::Navigate
            },
            _ => Directive::Nothing,
        }
    }

    /// The wait for readiness has run out.
    pub fn on_ready_timeout(&mut self) -> (directive: Directive)
        ensures
            directive == old(self)@.timeout_directive(),
            final(self)@ == old(self)@.timed_out(),
    {
        match self.phase {
            Phase::AwaitingReady => {
                self.phase = Phase::TimedOut;
                Directive::CloseAndFail(AuthError::AuthFlowTimedOut)
            },
            _ => Directive::Nothing,
        }
    }

    /// The window is about to load `url`.
    pub fn on_navigation(&mut self, url: &str) -> (verdict: Verdict)
        ensures
            verdict == old(self)@.verdict(url@),
            final(self)@ == old(self)@.navigated(url@),
    {
        if !starts_with(url, self.redirect_prefix.as_str()) {
            return Verdict::Allow;
        }
        if self.is_pending() {
            self.phase = Phase::Captured(url.to_owned());
            Verdict::Capture
        } else {
            Verdict::Veto
        }
    }

    /// The window was closed.
    pub fn on_window_closed(&mut self) -> (directive: Directive)
        ensures
            directive == old(self)@.close_directive(),
            final(self)@ == old(self)@.closed(),
    {
        if self.is_pending() {
            self.phase = Phase::Cancelled;
            Directive::Fail(AuthError::AuthFlowCancelled)
        } else {
            Directive::Nothing
        }
    }

    /// What the waiting caller gets: nothing yet, the address of the redirect, or the error.
    pub fn resolution(&self) -> (outcome: Option<Result<String, AuthError>>)
        ensures
            match outcome {
                None => self@.resolution() is None,
                Some(Ok(url)) => self@.resolution() == Some(
                    Ok::<Seq<char>, AuthError>(url@),
                ),
                Some(Err(error)) => self@.resolution() == Some(
                    Err::<Seq<char>, AuthError>(error),
                ),
            },
    {
        match &self.phase {
            Phase::AwaitingReady | Phase::AwaitingRedirect => None,
            Phase::Captured(url) => Some(Ok(url.clone())),
            Phase::Cancelled => Some(Err(AuthError::AuthFlowCancelled)),
            Phase::TimedOut => Some(Err(AuthError::AuthFlowTimedOut)),
        }
    }
}

proof fn lemma_navigated_push(state: AuthState, urls: Seq<Seq<char>>, url: Seq<char>)
    ensures
        state.navigated_all(urls.push(url)) == state.navigated_all(urls).navigated(url),
{
    assert(urls.push(url).drop_last() =~= urls);
}

proof fn lemma_navigated_concat(state: AuthState, first: Seq<Seq<char>>, second: Seq<Seq<char>>)
    ensures
        state.navigated_all(first + second) == state.navigated_all(first).navigated_all(second),
    decreases second.len(),
{
    if second.len() == 0 {
        assert(first + second =~= first);
    } else {
        lemma_navigated_concat(state, first, second.drop_last());
        assert((first + second).drop_last() =~= first + second.drop_last());
        assert((first + second).last() == second.last());
    }
}

/// Navigations to other addresses than the redirect leave a capture as it is.
proof fn lemma_unrelated_navigations(state: AuthState, urls: Seq<Seq<char>>)
    requires
        forall|at: int| 0 <= at < urls.len() ==> !state.is_redirect(#[trigger] urls[at]),
    ensures
        state.navigated_all(urls) == state,
    decreases urls.len(),
{
    if urls.len() > 0 {
        let front = urls.drop_last();
        assert forall|at: int| 0 <= at < front.len() implies !state.is_redirect(
            #[trigger] front[at],
        ) by {
            assert(front[at] == urls[at]);
        }
        lemma_unrelated_navigations(state, front);
    }
}

/// Once the caller has its answer, no navigation changes it.
proof fn lemma_resolved_stays(state: AuthState, urls: Seq<Seq<char>>)
    requires
        !state.pending(),
    ensures
        state.navigated_all(urls) == state,
    decreases urls.len(),
{
    if urls.len() > 0 {
        lemma_resolved_stays(state, urls.drop_last());
    }
}

/// Redirect capture. Let a capture be waiting, let `before` be navigations to
/// addresses that are not of the redirect, `redirect` one that is, and `after`
/// any navigations at all. Then every navigation of `before` is let through
/// and leaves the capture waiting; the navigation to `redirect` is kept from
/// loading and captured; the caller gets `redirect`; and whatever comes after,
/// be it navigations, the closing of the window, a late readiness or a late
/// timeout, nothing is captured again and the caller's answer stays `redirect`.
pub proof fn redirect_is_captured_once(
    state: AuthState,
    before: Seq<Seq<char>>,
    redirect: Seq<char>,
    after: Seq<Seq<char>>,
)
    requires
        state.pending(),
        forall|at: int| 0 <= at < before.len() ==> !state.is_redirect(#[trigger] before[at]),
        state.is_redirect(redirect),
    ensures
        forall|at: int|
            0 <= at < before.len() ==> state.navigated_all(before.subrange(0, at)).verdict(
                #[trigger] before[at],
            ) is Allow,
        state.navigated_all(before) == state,
        state.navigated_all(before).verdict(redirect) is Capture,
        state.navigated_all(before.push(redirect)).resolution() == Some(
            Ok::<Seq<char>, AuthError>(redirect),
        ),
        forall|at: int|
            0 <= at < after.len() ==> !(state.navigated_all(
                before.push(redirect) + after.subrange(0, at),
            ).verdict(#[trigger] after[at]) is Capture),
        ({
            let later = state.navigated_all(before.push(redirect) + after);
            &&& later.resolution() == Some(Ok::<Seq<char>, AuthError>(redirect))
            &&& later.closed() == later && later.close_directive() is Nothing
            &&& later.readied() == later && later.ready_directive() is Nothing
            &&& later.timed_out() == later && later.timeout_directive() is Nothing
        }),
{
    lemma_unrelated_navigations(state, before);
    lemma_navigated_push(state, before, redirect);
    let captured = state.navigated_all(before.push(redirect));
    assert forall|at: int| 0 <= at < before.len() implies state.navigated_all(
        before.subrange(0, at),
    ).verdict(#[trigger] before[at]) is Allow by {
        let front = before.subrange(0, at);
        assert forall|k: int| 0 <= k < front.len() implies !state.is_redirect(
            #[trigger] front[k],
        ) by {
            assert(front[k] == before[k]);
        }
        lemma_unrelated_navigations(state, front);
    }
    assert forall|at: int| 0 <= at < after.len() implies !(state.navigated_all(
        before.push(redirect) + after.subrange(0, at),
    ).verdict(#[trigger] after[at]) is Capture) by {
        lemma_navigated_concat(state, before.push(redirect), after.subrange(0, at));
        lemma_resolved_stays(captured, after.subrange(0, at));
    }
    lemma_navigated_concat(state, before.push(redirect), after);
    lemma_resolved_stays(captured, after);
}

/// Cancellation. Let a capture be waiting and let `before` be navigations to
/// addresses that are not of the redirect. When the window is closed then, the
/// host is told to wake the caller with the cancellation, and the
/// cancellation is the caller's answer.
pub proof fn close_before_redirect_cancels(state: AuthState, before: Seq<Seq<char>>)
    requires
        state.pending(),
        forall|at: int| 0 <= at < before.len() ==> !state.is_redirect(#[trigger] before[at]),
    ensures
        state.navigated_all(before).close_directive() == Directive::Fail(
            AuthError::AuthFlowCancelled,
        ),
        state.navigated_all(before).closed().resolution() == Some(
            Err::<Seq<char>, AuthError>(AuthError::AuthFlowCancelled),
        ),
{
    lemma_unrelated_navigations(state, before);
}

/// Timeout. When the wait for readiness runs out on a page that never became
/// ready, the host is told to close the window and wake the caller with the
/// timeout, the timeout is the caller's answer, and a readiness that comes
/// late does not send the window anywhere.
pub proof fn timeout_never_navigates(state: AuthState)
    requires
        state.status is AwaitingReady,
    ensures
        state.timeout_directive() == Directive::CloseAndFail(AuthError::AuthFlowTimedOut),
        state.timed_out().resolution() == Some(
            Err::<Seq<char>, AuthError>(AuthError::AuthFlowTimedOut),
        ),
        state.timed_out().ready_directive() is Nothing,
        state.timed_out().readied() == state.timed_out(),
{
}

/// The window is sent to the authorization address at most once: after a
/// first readiness every further one is answered with nothing.
pub proof fn navigates_at_most_once(state: AuthState)
    ensures
        state.readied().ready_directive() is Nothing,
        state.readied().readied() == state.readied(),
{
}

} // verus!
