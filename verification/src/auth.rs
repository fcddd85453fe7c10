//! Signing in and out: where the user stands with the remote service, and
//! how the documents that the remote endpoint has open follow it.

use crate::buffer::{Buffer, BufferView};
use crate::cody::{Cody, CodyView};
use crate::notification::{notifications_view, Notification, NotificationView};
use crate::request;
use crate::server::{
    CodyServer, CodyServerView, Error, ErrorView, RegisteredBufferView, RunningCodyServerView,
    SignInStatus, SignInStatusView,
};
use crate::wellformed::{lemma_sign_in_keeps_wf, lemma_status_update_keeps_wf};
use vstd::prelude::*;

verus! {

broadcast use vstd::std_specs::hash::group_hash_axioms;

/// What a status that the remote endpoint reports amounts to.
#[derive(Clone, Copy, Debug, PartialEq, Eq, Structural)]
pub enum Authorization {
    Authorized,
    Unauthorized,
    SignedOut,
}

/// What a reported status amounts to: a status that names a user, for
/// certain or not, authorizes; one that names a user who may not use the
/// service does not; the others leave the user signed out.
pub open spec fn authorization_of(status: request::SignInStatus) -> Authorization {
    match status {
        request::SignInStatus::Okay { user: Some(_) } => Authorization::Authorized,
        request::SignInStatus::MaybeOk { .. } => Authorization::Authorized,
        request::SignInStatus::AlreadySignedIn { .. } => Authorization::Authorized,
        request::SignInStatus::NotAuthorized { .. } => Authorization::Unauthorized,
        request::SignInStatus::Okay { user: None } => Authorization::SignedOut,
        request::SignInStatus::NotSignedIn => Authorization::SignedOut,
    }
}

pub fn authorization(status: &request::SignInStatus) -> (authorization: Authorization)
    ensures
        authorization == authorization_of(*status),
{
    match status {
        request::SignInStatus::Okay { user: Some(_) } => Authorization::Authorized,
        request::SignInStatus::MaybeOk { .. } => Authorization::Authorized,
        request::SignInStatus::AlreadySignedIn { .. } => Authorization::Authorized,
        request::SignInStatus::NotAuthorized { .. } => Authorization::Unauthorized,
        request::SignInStatus::Okay { user: None } => Authorization::SignedOut,
        request::SignInStatus::NotSignedIn => Authorization::SignedOut,
    }
}

/// The sign-in status that an authorization sets.
pub open spec fn status_of(authorization: Authorization) -> SignInStatusView {
    match authorization {
        Authorization::Authorized => SignInStatusView::Authorized,
        Authorization::Unauthorized => SignInStatusView::Unauthorized,
        Authorization::SignedOut => SignInStatusView::SignedOut,
    }
}

/// The views of a sequence of documents.
pub open spec fn buffers_view(buffers: Seq<Buffer>) -> Seq<BufferView> {
    buffers.map_values(|buffer: Buffer| buffer@)
}

/// Whether the document at index `i` is the first of `live` with identity `id`.
pub open spec fn is_first_live(live: Seq<BufferView>, id: u64, i: int) -> bool {
    &&& 0 <= i < live.len()
    &&& live[i].id == id
    &&& forall|j: int| 0 <= j < i ==> live[j].id != id
}

/// Whether a document with identity `id` is among `live`.
pub open spec fn is_live(live: Seq<BufferView>, id: u64) -> bool {
    exists|i: int| is_first_live(live, id, i)
}

/// The choice of the documents that are not forgotten: those among
/// `live`, and those in the table.
pub open spec fn survives(
    live: Seq<BufferView>,
    table: Map<u64, RegisteredBufferView>,
) -> spec_fn(u64) -> bool {
    |id: u64| is_live(live, id) || table.dom().contains(id)
}

/// The first of the documents in `live` with identity `id`.
pub open spec fn live_buffer(live: Seq<BufferView>, id: u64) -> Option<BufferView> {
    if is_live(live, id) {
        Some(live[choose|i: int| is_first_live(live, id, i)])
    } else {
        None
    }
}

/// The index of the first of the documents with identity `id`.
pub fn find_live(live: &Vec<Buffer>, id: u64) -> (index: Option<usize>)
    ensures
        match index {
            Some(i) => is_first_live(buffers_view(live@), id, i as int) && live_buffer(
                buffers_view(live@),
                id,
            ) == Some(live@[i as int]@),
            None => !is_live(buffers_view(live@), id),
        },
{
    let mut i: usize = 0;
    while i < live.len()
        invariant
            i <= live.len(),
            forall|j: int| 0 <= j < i ==> buffers_view(live@)[j].id != id,
        decreases live.len() - i,
    {
        if live[i].id == id {
            return Some(i);
        }
        i += 1;
    }
    None
}

impl CodyServerView {
    /// The session with another sign-in status. A session that does not
    /// run has none and stays as it is.
    pub open spec fn with_status(self, status: SignInStatusView) -> CodyServerView {
        match self {
            CodyServerView::Running(server) => CodyServerView::Running(
                RunningCodyServerView { sign_in_status: status, ..server },
            ),
            _ => self,
        }
    }
}

impl CodyView {
    /// The state once the known documents that are gone are forgotten:
    /// those stay that are among `live`, and those that are still open at
    /// the remote endpoint.
    pub open spec fn retain_live(self, live: Seq<BufferView>) -> CodyView {
        CodyView {
            buffers: self.buffers.filter(survives(live, self.server.registered())),
            ..self
        }
    }

    /// The state after each of the documents `ids` that is among `live`
    /// was registered, in the order of `ids`.
    pub open spec fn register_known(self, ids: Seq<u64>, live: Seq<BufferView>) -> CodyView
        decreases ids.len(),
    {
        if ids.len() == 0 {
            self
        } else {
            let before = self.register_known(ids.drop_last(), live);
            match live_buffer(live, ids.last()) {
                Some(buffer) => before.register(buffer),
                None => before,
            }
        }
    }

    /// What is sent while the documents `ids` are registered.
    pub open spec fn register_known_sends(
        self,
        ids: Seq<u64>,
        live: Seq<BufferView>,
    ) -> Seq<NotificationView>
        decreases ids.len(),
    {
        if ids.len() == 0 {
            Seq::empty()
        } else {
            let before = self.register_known(ids.drop_last(), live);
            self.register_known_sends(ids.drop_last(), live) + match live_buffer(
                live,
                ids.last(),
            ) {
                Some(buffer) => before.register_sends(buffer),
                None => Seq::empty(),
            }
        }
    }

    /// The state after each of the documents `ids` was closed at the remote
    /// endpoint, in the order of `ids`.
    pub open spec fn unregister_known(self, ids: Seq<u64>) -> CodyView
        decreases ids.len(),
    {
        if ids.len() == 0 {
            self
        } else {
            self.unregister_known(ids.drop_last()).unregister(ids.last())
        }
    }

    /// What is sent while the documents `ids` are closed.
    pub open spec fn unregister_known_sends(self, ids: Seq<u64>) -> Seq<NotificationView>
        decreases ids.len(),
    {
        if ids.len() == 0 {
            Seq::empty()
        } else {
            self.unregister_known_sends(ids.drop_last()) + self.unregister_known(
                ids.drop_last(),
            ).unregister_sends(ids.last())
        }
    }

    /// The state after the remote endpoint has reported where the user
    /// stands. The known documents that are gone are forgotten. Where the
    /// session runs, the status is set; the known documents are then
    /// opened if the user is authorized, and closed if not.
    pub open spec fn status_updated(
        self,
        authorization: Authorization,
        live: Seq<BufferView>,
    ) -> CodyView {
        let kept = self.retain_live(live);
        if kept.server is Running {
            let set = CodyView {
                server: kept.server.with_status(status_of(authorization)),
                ..kept
            };
            if authorization == Authorization::Authorized {
                set.register_known(kept.buffers, live)
            } else {
                set.unregister_known(kept.buffers)
            }
        } else {
            kept
        }
    }

    /// What is sent when the remote endpoint has reported where the user stands.
    pub open spec fn status_update_sends(
        self,
        authorization: Authorization,
        live: Seq<BufferView>,
    ) -> Seq<NotificationView> {
        let kept = self.retain_live(live);
        if kept.server is Running {
            let set = CodyView {
                server: kept.server.with_status(status_of(authorization)),
                ..kept
            };
            if authorization == Authorization::Authorized {
                set.register_known_sends(kept.buffers, live)
            } else {
                set.unregister_known_sends(kept.buffers)
            }
        } else {
            Seq::empty()
        }
    }
}

impl Cody {
    /// Forgets the known documents that are neither among `live` nor open
    /// at the remote endpoint.
    fn retain_live(&mut self, live: &Vec<Buffer>)
        ensures
            final(self)@ == old(self)@.retain_live(buffers_view(live@)),
    {
        let ghost views = buffers_view(live@);
        let ghost table = self@.server.registered();
        let ghost keep = survives(views, table);
        let mut kept: Vec<u64> = Vec::new();
        let mut i: usize = 0;
        while i < self.buffers.len()
            invariant
                i <= self.buffers.len(),
                *self == *old(self),
                views == buffers_view(live@),
                table == self@.server.registered(),
                keep == survives(views, table),
                kept@ == self.buffers@.take(i as int).filter(keep),
            decreases self.buffers.len() - i,
        {
            let id = self.buffers[i];
            proof {
                assert(self.buffers@.take(i + 1).drop_last() =~= self.buffers@.take(i as int));
                reveal(Seq::filter);
            }
            let registered = match &self.server {
                CodyServer::Running(server) => server.registered_buffers.contains_key(&id),
                _ => false,
            };
            if registered || find_live(live, id).is_some() {
                kept.push(id);
            }
            i += 1;
        }
        assert(self.buffers@.take(self.buffers.len() as int) =~= self.buffers@);
        self.buffers = kept;
    }

    /// Registers each of the documents `ids` that is among `live`.
    fn register_known(&mut self, ids: &Vec<u64>, live: &Vec<Buffer>) -> (notifications: Vec<
        Notification,
    >)
        ensures
            final(self)@ == old(self)@.register_known(ids@, buffers_view(live@)),
            notifications_view(notifications@) == old(self)@.register_known_sends(
                ids@,
                buffers_view(live@),
            ),
    {
        let ghost views = buffers_view(live@);
        let mut notifications: Vec<Notification> = Vec::new();
        let mut i: usize = 0;
        while i < ids.len()
            invariant
                i <= ids.len(),
                views == buffers_view(live@),
                self@ == old(self)@.register_known(ids@.take(i as int), views),
                notifications_view(notifications@) == old(self)@.register_known_sends(
                    ids@.take(i as int),
                    views,
                ),
            decreases ids.len() - i,
        {
            assert(ids@.take(i + 1).drop_last() =~= ids@.take(i as int));
            if let Some(k) = find_live(live, ids[i]) {
                if let Some(notification) = self.register_buffer(&live[k]) {
                    notifications.push(notification);
                }
            }
            i += 1;
        }
        assert(ids@.take(ids.len() as int) =~= ids@);
        notifications
    }

    /// Closes each of the documents `ids` at the remote endpoint.
    fn unregister_known(&mut self, ids: &Vec<u64>) -> (notifications: Vec<Notification>)
        ensures
            final(self)@ == old(self)@.unregister_known(ids@),
            notifications_view(notifications@) == old(self)@.unregister_known_sends(ids@),
    {
        let mut notifications: Vec<Notification> = Vec::new();
        let mut i: usize = 0;
        while i < ids.len()
            invariant
                i <= ids.len(),
                self@ == old(self)@.unregister_known(ids@.take(i as int)),
                notifications_view(notifications@) == old(self)@.unregister_known_sends(
                    ids@.take(i as int),
                ),
            decreases ids.len() - i,
        {
            assert(ids@.take(i + 1).drop_last() =~= ids@.take(i as int));
            if let Some(notification) = self.unregister_buffer(ids[i]) {
                notifications.push(notification);
            }
            i += 1;
        }
        assert(ids@.take(ids.len() as int) =~= ids@);
        notifications
    }

    /// Takes note of where the user stands with the remote service, and
    /// brings the documents that the remote endpoint has open in line with
    /// it. `live` holds the known documents that still exist, as they are
    /// now. Returns the notifications to send, in their order.
    pub fn update_sign_in_status(
        &mut self,
        lsp_status: &request::SignInStatus,
        live: &Vec<Buffer>,
    ) -> (notifications: Vec<Notification>)
        ensures
            final(self)@ == old(self)@.status_updated(
                authorization_of(*lsp_status),
                buffers_view(live@),
            ),
            notifications_view(notifications@) == old(self)@.status_update_sends(
                authorization_of(*lsp_status),
                buffers_view(live@),
            ),
            old(self)@.wf() ==> final(self)@.wf(),
    {
        proof {
            if old(self)@.wf() {
                lemma_status_update_keeps_wf(
                    old(self)@,
                    authorization_of(*lsp_status),
                    buffers_view(live@),
                );
            }
        }
        self.retain_live(live);
        let authorization = authorization(lsp_status);
        match &mut self.server {
            CodyServer::Running(server) => {
                server.sign_in_status = match authorization {
                    Authorization::Authorized => SignInStatus::Authorized,
                    Authorization::Unauthorized => SignInStatus::Unauthorized,
                    Authorization::SignedOut => SignInStatus::SignedOut,
                };
            },
            _ => {
                return Vec::new();
            },
        }
        let ids = self.buffers.clone();
        match authorization {
            Authorization::Authorized => self.register_known(&ids, live),
            _ => self.unregister_known(&ids),
        }
    }
}

/// What the caller of `sign_in` has to do.
#[derive(Clone, Copy, Debug, PartialEq, Eq, Structural)]
pub enum SignInStep {
    /// The user is authorized already: there is nothing to wait for.
    Done,
    /// A sign-in is in flight: wait for its outcome.
    Join,
    /// A sign-in has begun with this call: send the request that begins
    /// it, and hand the answer to `sign_in_initiated`.
    Begin,
}

/// How a sign-in goes on after the remote endpoint has answered.
#[derive(Debug, PartialEq, Eq)]
pub enum SignInProgress {
    /// The user has to authorize this device: send the request that
    /// confirms the sign-in, and hand the answer to `sign_in_confirmed`.
    Confirm(request::SignInConfirmParams),
    /// The sign-in is over, with this outcome for everyone who waits for it.
    Finished(Result<(), Error>),
}

pub enum SignInProgressView {
    Confirm { user_code: Seq<char> },
    Finished(Result<(), ErrorView>),
}

/// The view of the outcome of an operation that returns nothing.
pub open spec fn outcome_view(outcome: Result<(), Error>) -> Result<(), ErrorView> {
    match outcome {
        Ok(_) => Ok(()),
        Err(error) => Err(error@),
    }
}

impl View for SignInProgress {
    type V = SignInProgressView;

    open spec fn view(&self) -> SignInProgressView {
        match *self {
            SignInProgress::Confirm(params) => SignInProgressView::Confirm {
                user_code: params.user_code@,
            },
            SignInProgress::Finished(outcome) => SignInProgressView::Finished(
                outcome_view(outcome),
            ),
        }
    }
}

impl CodyView {
    /// What `sign_in` asks of its caller, or why the user cannot sign in.
    pub open spec fn sign_in_step(self) -> Result<SignInStep, ErrorView> {
        match self.server {
            CodyServerView::Running(server) => Ok(
                match server.sign_in_status {
                    SignInStatusView::Authorized => SignInStep::Done,
                    SignInStatusView::SigningIn { .. } => SignInStep::Join,
                    _ => SignInStep::Begin,
                },
            ),
            _ => Err(self.server.not_running().unwrap()),
        }
    }

    /// The state after `sign_in`: a sign-in that begins is in flight.
    pub open spec fn sign_in(self) -> CodyView {
        if self.sign_in_step() == Ok::<SignInStep, ErrorView>(SignInStep::Begin) {
            CodyView {
                server: self.server.with_status(SignInStatusView::SigningIn { prompt: None }),
                ..self
            }
        } else {
            self
        }
    }

    /// The state after the remote endpoint has asked for the device to be
    /// authorized: the prompt is shown while the sign-in is in flight.
    pub open spec fn prompted(self, prompt: request::PromptUserDeviceFlowView) -> CodyView {
        if self.server is Running && self.server->Running_0.sign_in_status is SigningIn {
            CodyView {
                server: self.server.with_status(
                    SignInStatusView::SigningIn { prompt: Some(prompt) },
                ),
                ..self
            }
        } else {
            self
        }
    }
}

impl Cody {
    /// Asks for the user to be signed in. Only a call that finds the user
    /// signed out or unauthorized begins a sign-in; a call that finds one
    /// in flight joins it.
    pub fn sign_in(&mut self) -> (step: Result<SignInStep, Error>)
        ensures
            final(self)@ == old(self)@.sign_in(),
            match step {
                Ok(step) => old(self)@.sign_in_step() == Ok::<SignInStep, ErrorView>(step),
                Err(error) => old(self)@.sign_in_step() == Err::<SignInStep, ErrorView>(error@),
            },
            old(self)@.wf() ==> final(self)@.wf(),
    {
        proof {
            if old(self)@.wf() {
                lemma_sign_in_keeps_wf(
                    old(self)@,
                    request::PromptUserDeviceFlowView {
                        user_code: Seq::empty(),
                        verification_uri: Seq::empty(),
                    },
                );
            }
        }
        let server = self.server.as_running()?;
        match server.sign_in_status {
            SignInStatus::Authorized => Ok(SignInStep::Done),
            SignInStatus::SigningIn { .. } => Ok(SignInStep::Join),
            SignInStatus::SignedOut | SignInStatus::Unauthorized => {
                server.sign_in_status = SignInStatus::SigningIn { prompt: None };
                Ok(SignInStep::Begin)
            },
        }
    }

    /// The remote endpoint has answered the request that begins a sign-in,
    /// or the request has failed with `Err` and the reason. A user who is
    /// signed in already is authorized. A user who has to authorize the
    /// device is shown the prompt, and the sign-in goes on with the
    /// confirmation. After a failure the user is signed out.
    pub fn sign_in_initiated(
        &mut self,
        response: Result<request::SignInInitiateResult, String>,
        live: &Vec<Buffer>,
    ) -> (result: (SignInProgress, Vec<Notification>))
        ensures
            match response {
                Ok(request::SignInInitiateResult::AlreadySignedIn { .. }) => {
                    &&& final(self)@ == old(self)@.status_updated(
                        Authorization::Authorized,
                        buffers_view(live@),
                    )
                    &&& notifications_view(result.1@) == old(self)@.status_update_sends(
                        Authorization::Authorized,
                        buffers_view(live@),
                    )
                    &&& result.0@ == SignInProgressView::Finished(Ok(()))
                },
                Ok(request::SignInInitiateResult::PromptUserDeviceFlow(flow)) => {
                    &&& final(self)@ == old(self)@.prompted(flow@)
                    &&& result.1@.len() == 0
                    &&& result.0@ == (SignInProgressView::Confirm { user_code: flow@.user_code })
                },
                Err(message) => {
                    &&& final(self)@ == old(self)@.status_updated(
                        Authorization::SignedOut,
                        buffers_view(live@),
                    )
                    &&& notifications_view(result.1@) == old(self)@.status_update_sends(
                        Authorization::SignedOut,
                        buffers_view(live@),
                    )
                    &&& result.0@ == SignInProgressView::Finished(
                        Err(ErrorView::AuthFailed(message@)),
                    )
                },
            },
            old(self)@.wf() ==> final(self)@.wf(),
    {
        proof {
            if old(self)@.wf() {
                if response is Ok && response->Ok_0 is PromptUserDeviceFlow {
                    lemma_sign_in_keeps_wf(old(self)@, response->Ok_0->PromptUserDeviceFlow_0@);
                }
            }
        }
        match response {
            Ok(request::SignInInitiateResult::AlreadySignedIn { user }) => {
                let status = request::SignInStatus::Okay { user: Some(user) };
                let notifications = self.update_sign_in_status(&status, live);
                (SignInProgress::Finished(Ok(())), notifications)
            },
            Ok(request::SignInInitiateResult::PromptUserDeviceFlow(flow)) => {
                match &mut self.server {
                    CodyServer::Running(server) => {
                        if matches!(server.sign_in_status, SignInStatus::SigningIn { .. }) {
                            server.sign_in_status = SignInStatus::SigningIn {
                                prompt: Some(flow.clone()),
                            };
                        }
                    },
                    _ => {},
                }
                let params = request::SignInConfirmParams { user_code: flow.user_code };
                (SignInProgress::Confirm(params), Vec::new())
            },
            Err(message) => {
                let notifications = self.update_sign_in_status(
                    &request::SignInStatus::NotSignedIn,
                    live,
                );
                (SignInProgress::Finished(Err(Error::AuthFailed(message))), notifications)
            },
        }
    }

    /// The remote endpoint has answered the request that confirms a
    /// sign-in, or the request has failed with `Err` and the reason. The
    /// status that it reports is taken note of; after a failure the user is
    /// signed out. Returns the outcome for everyone who waits for the
    /// sign-in, and the notifications to send.
    pub fn sign_in_confirmed(
        &mut self,
        response: Result<request::SignInStatus, String>,
        live: &Vec<Buffer>,
    ) -> (result: (Result<(), Error>, Vec<Notification>))
        ensures
            match response {
                Ok(status) => {
                    &&& final(self)@ == old(self)@.status_updated(
                        authorization_of(status),
                        buffers_view(live@),
                    )
                    &&& notifications_view(result.1@) == old(self)@.status_update_sends(
                        authorization_of(status),
                        buffers_view(live@),
                    )
                    &&& result.0 is Ok
                },
                Err(message) => {
                    &&& final(self)@ == old(self)@.status_updated(
                        Authorization::SignedOut,
                        buffers_view(live@),
                    )
                    &&& notifications_view(result.1@) == old(self)@.status_update_sends(
                        Authorization::SignedOut,
                        buffers_view(live@),
                    )
                    &&& outcome_view(result.0) == Err::<(), ErrorView>(
                        ErrorView::AuthFailed(message@),
                    )
                },
            },
            old(self)@.wf() ==> final(self)@.wf(),
    {
        match response {
            Ok(status) => {
                let notifications = self.update_sign_in_status(&status, live);
                (Ok(()), notifications)
            },
            Err(message) => {
                let notifications = self.update_sign_in_status(
                    &request::SignInStatus::NotSignedIn,
                    live,
                );
                (Err(Error::AuthFailed(message)), notifications)
            },
        }
    }

    /// Signs the user out at once: the documents are closed before the
    /// remote endpoint is asked. Returns the notifications to send, and
    /// whether the request that ends the remote session is to be sent
    /// after them, which is so where the session runs.
    pub fn sign_out(&mut self, live: &Vec<Buffer>) -> (result: (
        Result<(), Error>,
        Vec<Notification>,
    ))
        ensures
            final(self)@ == old(self)@.status_updated(
                Authorization::SignedOut,
                buffers_view(live@),
            ),
            notifications_view(result.1@) == old(self)@.status_update_sends(
                Authorization::SignedOut,
                buffers_view(live@),
            ),
            match result.0 {
                Ok(_) => old(self)@.server is Running,
                Err(error) => old(self)@.server.not_running() == Some(error@),
            },
            old(self)@.wf() ==> final(self)@.wf(),
    {
        let running = match self.server.as_running() {
            Ok(_) => Ok(()),
            Err(error) => Err(error),
        };
        let notifications = self.update_sign_in_status(&request::SignInStatus::NotSignedIn, live);
        (running, notifications)
    }
}

} // verus!
