//! The session with the console as a state machine: every event is answered
//! with the actions that the caller is to carry out.

use vstd::prelude::*;

use super::messages::{
    message_of, ReceiveMsg, ReceiveMsgView, Request, RequestView, Response, ResponseView, SendMsg,
    SendMsgView,
};
use super::state::{button_key, cache_after, fader_key, news, Ma2State, Ma2StateView};
use crate::digest::{hashed_password, md5_hex};
use crate::error::{DecodeError, Ma2Error, Ma2ErrorView};
use crate::interface::messages::{MaEventView, MaRequestView};
use crate::interface::{MaEvent, MaRequest};
use crate::json::json_of_text;
use crate::text::same_text;
use crate::types::executor_data::{ButtonDataView, FaderDataView};
use crate::types::executor_range::span_counts;
use crate::types::{ButtonData, ButtonRange, FaderData, FaderRange};

verus! {

/// The console forgets a session that is not announced again within this
/// many messages.
pub const MAX_REQUESTS: u8 = 9;

/// The `maxRequests` of the requests that open and close a session.
pub const SESSION_MAX_REQUESTS: u16 = 10;

/// The item type of buttons in a `playbacks` request.
pub const POLL_BUTTONS: u8 = 3;

/// The item type of faders in a `playbacks` request.
pub const POLL_FADERS: u8 = 2;

/// The session id of a client that has none yet.
pub const NO_SESSION: i8 = -1;

/// What the caller is to do for the client.
#[derive(Debug)]
pub enum Action {
    /// Put the message on the wire. A failure ends the client.
    Send(SendMsg),
    /// Hand the event to the application. A failure ends the client.
    Emit(MaEvent),
    /// Put the message on the wire if that is still possible, then close
    /// the connection. Failures are passed over.
    Close(SendMsg),
}

/// An [`Action`] as a mathematical value.
pub enum ActionView {
    Send(SendMsgView),
    Emit(MaEventView),
    Close(SendMsgView),
}

impl View for Action {
    type V = ActionView;

    open spec fn view(&self) -> ActionView {
        match *self {
            Action::Send(msg) => ActionView::Send(msg@),
            Action::Emit(event) => ActionView::Emit(event@),
            Action::Close(msg) => ActionView::Close(msg@),
        }
    }
}

/// The views of a run of actions.
pub open spec fn action_views(actions: Seq<Action>) -> Seq<ActionView> {
    actions.map_values(|a: Action| a@)
}

/// What the client answers to one event: the actions that the caller is to
/// carry out in their order, and whether the client goes on.
#[derive(Debug)]
pub struct Reaction<T> {
    pub actions: Vec<Action>,
    pub result: Result<T, Box<Ma2Error>>,
}

/// A [`Reaction`] as a mathematical value, with the state of the client
/// after it.
pub struct ReactionView<T> {
    pub next: ClientView,
    pub actions: Seq<ActionView>,
    pub result: Result<T, Ma2ErrorView>,
}

/// The view of an outcome.
pub open spec fn result_view<T>(result: Result<T, Box<Ma2Error>>) -> Result<T, Ma2ErrorView> {
    match result {
        Ok(value) => Ok(value),
        Err(e) => Err(e@),
    }
}

/// The state of the session with the console, and what the client has seen
/// of the console's faders and buttons.
#[derive(Debug)]
pub struct GrandMa2Client {
    username: String,
    password: String,
    subscribed_button_range: Option<ButtonRange>,
    subscribed_fader_range: Option<FaderRange>,
    state: Ma2State,
    logged_in: bool,
    session_id: i8,
    num_requests: u8,
}

/// A [`GrandMa2Client`] as a mathematical value.
pub struct ClientView {
    pub username: Seq<char>,
    pub password: Seq<char>,
    pub subscribed_button_range: Option<ButtonRange>,
    pub subscribed_fader_range: Option<FaderRange>,
    pub cache: Ma2StateView,
    pub logged_in: bool,
    pub session_id: i8,
    pub num_requests: u8,
}

impl View for GrandMa2Client {
    type V = ClientView;

    closed spec fn view(&self) -> ClientView {
        ClientView {
            username: self.username@,
            password: self.password@,
            subscribed_button_range: self.subscribed_button_range,
            subscribed_fader_range: self.subscribed_fader_range,
            cache: self.state@,
            logged_in: self.logged_in,
            session_id: self.session_id,
            num_requests: self.num_requests,
        }
    }
}

/// The bare announcement of a session.
pub open spec fn session_msg(session: i8) -> SendMsgView {
    SendMsgView::Session { session }
}

/// The request that logs the client in: the user's name and the digest of
/// the password.
pub open spec fn login_msg(state: ClientView) -> SendMsgView {
    SendMsgView::Request(
        RequestView::Login {
            username: state.username,
            password: md5_hex(state.password),
            max_requests: SESSION_MAX_REQUESTS,
            session: state.session_id,
        },
    )
}

/// The request that ends the session.
pub open spec fn close_msg(state: ClientView) -> SendMsgView {
    SendMsgView::Request(
        RequestView::Close { session: state.session_id, max_requests: SESSION_MAX_REQUESTS },
    )
}

/// Whether the message that comes next is the one that makes the client
/// announce its session again.
pub open spec fn announcement_due(state: ClientView) -> bool {
    state.num_requests + 1 >= MAX_REQUESTS
}

/// What the client sends before it looks at a message: its session, if the
/// announcement is due.
pub open spec fn announcement(state: ClientView) -> Seq<ActionView> {
    if announcement_due(state) {
        seq![ActionView::Send(session_msg(state.session_id))]
    } else {
        Seq::empty()
    }
}

/// The state with one more message counted.
pub open spec fn counted(state: ClientView) -> ClientView {
    ClientView {
        num_requests: if announcement_due(state) {
            0u8
        } else {
            (state.num_requests + 1) as u8
        },
        ..state
    }
}

/// The events that tell of changed faders.
pub open spec fn fader_events(reports: Seq<FaderDataView>) -> Seq<ActionView> {
    reports.map_values(|f: FaderDataView| ActionView::Emit(MaEventView::FaderChanged(f)))
}

/// The events that tell of changed buttons.
pub open spec fn button_events(reports: Seq<ButtonDataView>) -> Seq<ActionView> {
    reports.map_values(|b: ButtonDataView| ActionView::Emit(MaEventView::ButtonChanged(b)))
}

/// Whether a status report says that the console is ready for the
/// handshake.
pub open spec fn is_ready(status: Seq<char>, app_type: Seq<char>) -> bool {
    status == "server ready"@ && app_type == "gma2"@
}

/// What a message of the console does to a client that has counted it.
pub open spec fn handle(state: ClientView, msg: ReceiveMsgView) -> ReactionView<()> {
    match msg {
        ReceiveMsgView::Session { force_login, session, .. } => {
            if force_login == Some(true) {
                let next = ClientView { session_id: session, ..state };
                ReactionView {
                    next,
                    actions: seq![ActionView::Send(login_msg(next))],
                    result: Ok(()),
                }
            } else if session <= -1 {
                ReactionView {
                    next: state,
                    actions: Seq::empty(),
                    result: Err(Ma2ErrorView::WebRemoteDisabled),
                }
            } else if session == 0 {
                ReactionView {
                    next: state,
                    actions: seq![ActionView::Send(session_msg(state.session_id))],
                    result: Err(Ma2ErrorView::ConnectedButInvalidSessionId),
                }
            } else {
                ReactionView {
                    next: ClientView { session_id: session, ..state },
                    actions: Seq::empty(),
                    result: Ok(()),
                }
            }
        },
        ReceiveMsgView::Status { status, app_type } => {
            if is_ready(status, app_type) {
                ReactionView {
                    next: state,
                    actions: seq![ActionView::Send(session_msg(0))],
                    result: Ok(()),
                }
            } else {
                ReactionView {
                    next: state,
                    actions: Seq::empty(),
                    result: Err(Ma2ErrorView::MessageHandlerNotImplemented(msg)),
                }
            }
        },
        ReceiveMsgView::Response(ResponseView::Login { result, .. }) => {
            ReactionView {
                next: if result {
                    ClientView { logged_in: true, ..state }
                } else {
                    state
                },
                actions: seq![ActionView::Emit(MaEventView::LoginSuccessful(result))],
                result: if result {
                    Ok(())
                } else {
                    Err(
                        Ma2ErrorView::LoginFailed {
                            username: state.username,
                            password: state.password,
                            hashed_password: md5_hex(state.password),
                        },
                    )
                },
            }
        },
        ReceiveMsgView::Response(ResponseView::Playbacks { item_groups, .. }) => {
            ReactionView {
                next: ClientView {
                    cache: Ma2StateView {
                        faders: cache_after(state.cache.faders, item_groups.faders, fader_key()),
                        buttons: cache_after(
                            state.cache.buttons,
                            item_groups.buttons,
                            button_key(),
                        ),
                    },
                    ..state
                },
                actions: fader_events(news(state.cache.faders, item_groups.faders, fader_key()))
                    + button_events(
                    news(state.cache.buttons, item_groups.buttons, button_key()),
                ),
                result: Ok(()),
            }
        },
        _ => ReactionView {
            next: state,
            actions: Seq::empty(),
            result: Err(Ma2ErrorView::MessageHandlerNotImplemented(msg)),
        },
    }
}

/// What a message of the console does to the client: the message is
/// counted, the session is announced again if that is due, and then the
/// message is handled.
pub open spec fn react(state: ClientView, msg: ReceiveMsgView) -> ReactionView<()> {
    let handled = handle(counted(state), msg);
    ReactionView {
        next: handled.next,
        actions: announcement(state) + handled.actions,
        result: handled.result,
    }
}

/// What a text frame of the console does to the client. A text that is no
/// message ends the client and is not counted.
pub open spec fn react_to_text(state: ClientView, text: Seq<char>) -> ReactionView<()> {
    match json_of_text(text) {
        None => ReactionView {
            next: state,
            actions: Seq::empty(),
            result: Err(
                Ma2ErrorView::CouldNotDeserializeReceiveMsg(text, DecodeError::InvalidJson),
            ),
        },
        Some(doc) => match message_of(doc) {
            None => ReactionView {
                next: state,
                actions: Seq::empty(),
                result: Err(
                    Ma2ErrorView::CouldNotDeserializeReceiveMsg(
                        text,
                        DecodeError::NoMatchingShape,
                    ),
                ),
            },
            Some(msg) => react(state, msg),
        },
    }
}

/// Whether the client can serve a request: the executors of a
/// subscription must span a count.
pub open spec fn can_serve(request: MaRequestView) -> bool {
    match request {
        MaRequestView::SubscribeButton(first, last) => span_counts(
            first.executor(),
            last.executor(),
        ),
        MaRequestView::SubscribeFader(first, last) => span_counts(
            first.executor(),
            last.executor(),
        ),
        _ => true,
    }
}

/// What a request of the application does to the client. The result says
/// whether the client is to stop.
pub open spec fn serve(state: ClientView, request: MaRequestView) -> ReactionView<bool> {
    match request {
        MaRequestView::SubscribeButton(first, last) => {
            if first.executor().not_after(last.executor()) {
                ReactionView {
                    next: ClientView {
                        subscribed_button_range: Some(
                            ButtonRange {
                                start_button: first,
                                num_buttons: (last.executor().id - first.executor().id + 1) as u16,
                            },
                        ),
                        ..state
                    },
                    actions: Seq::empty(),
                    result: Ok(false),
                }
            } else {
                ReactionView {
                    next: state,
                    actions: Seq::empty(),
                    result: Err(Ma2ErrorView::InvalidButtonRange(first, last)),
                }
            }
        },
        MaRequestView::SubscribeFader(first, last) => {
            if first.executor().not_after(last.executor()) {
                ReactionView {
                    next: ClientView {
                        subscribed_fader_range: Some(
                            FaderRange {
                                start_fader: first,
                                num_faders: (last.executor().id - first.executor().id + 1) as u16,
                            },
                        ),
                        ..state
                    },
                    actions: Seq::empty(),
                    result: Ok(false),
                }
            } else {
                ReactionView {
                    next: state,
                    actions: Seq::empty(),
                    result: Err(Ma2ErrorView::InvalidFaderRange(first, last)),
                }
            }
        },
        MaRequestView::Disconnect => ReactionView {
            next: state,
            actions: seq![ActionView::Close(close_msg(state))],
            result: Ok(true),
        },
        _ => ReactionView {
            next: state,
            actions: Seq::empty(),
            result: Err(Ma2ErrorView::RequestHandlerNotImplemented(request)),
        },
    }
}

/// The request that polls a run of executors of one kind.
pub open spec fn poll_msg(start: u16, count: u16, items_type: u8, session: i8) -> SendMsgView {
    SendMsgView::Request(
        RequestView::Playbacks {
            start_index: seq![start],
            items_count: seq![count],
            page_index: 0,
            items_type: seq![items_type],
            view: 2,
            exec_button_view_mode: 1,
            buttons_view_mode: 0,
            max_requests: 1,
            session,
        },
    )
}

/// What the client sends when its timer ticks: one request for the
/// subscribed buttons and one for the subscribed faders, each only if
/// there is such a subscription.
pub open spec fn poll(state: ClientView) -> Seq<ActionView> {
    let buttons = match state.subscribed_button_range {
        Some(range) => seq![
            ActionView::Send(
                poll_msg(
                    range.start_button.executor().id,
                    range.num_buttons,
                    POLL_BUTTONS,
                    state.session_id,
                ),
            ),
        ],
        None => Seq::empty(),
    };
    let faders = match state.subscribed_fader_range {
        Some(range) => seq![
            ActionView::Send(
                poll_msg(
                    range.start_fader.executor().id,
                    range.num_faders,
                    POLL_FADERS,
                    state.session_id,
                ),
            ),
        ],
        None => Seq::empty(),
    };
    buttons + faders
}

/// What the client does last: it tells the application how it ended, and
/// after an error it tries to log out.
pub open spec fn farewell(state: ClientView, outcome: Result<(), Ma2ErrorView>) -> Seq<ActionView> {
    match outcome {
        Ok(()) => seq![ActionView::Emit(MaEventView::Disconnected)],
        Err(e) => seq![
            ActionView::Emit(MaEventView::Error(e)),
            ActionView::Close(close_msg(state)),
        ],
    }
}

/// The state of the client after a run of messages.
pub open spec fn after(state: ClientView, msgs: Seq<ReceiveMsgView>) -> ClientView
    decreases msgs.len(),
{
    if msgs.len() == 0 {
        state
    } else {
        react(after(state, msgs.drop_last()), msgs.last()).next
    }
}

/// How many messages of a run made the client announce its session again.
pub open spec fn announcements(state: ClientView, msgs: Seq<ReceiveMsgView>) -> nat
    decreases msgs.len(),
{
    if msgs.len() == 0 {
        0
    } else {
        announcements(state, msgs.drop_last()) + if announcement_due(
            after(state, msgs.drop_last()),
        ) {
            1nat
        } else {
            0nat
        }
    }
}

/// The announcement of the session comes first among the actions of a
/// reaction, and it comes exactly when it is due.
pub proof fn lemma_announcement_leads(state: ClientView, msg: ReceiveMsgView)
    ensures
        announcement_due(state) ==> react(state, msg).actions.len() >= 1 && react(
            state,
            msg,
        ).actions[0] == ActionView::Send(session_msg(state.session_id)),
        react(state, msg).actions == announcement(state) + handle(counted(state), msg).actions,
        react(state, msg).next.num_requests == counted(state).num_requests,
{
}

/// The count of messages runs from 0 to 8 and starts again: after a run of
/// messages it is the remainder of what was counted, and the session has
/// been announced once for every nine.
pub proof fn lemma_counter_cycles(state: ClientView, msgs: Seq<ReceiveMsgView>)
    requires
        state.num_requests < MAX_REQUESTS,
    ensures
        after(state, msgs).num_requests == (state.num_requests + msgs.len()) % 9,
        announcements(state, msgs) == (state.num_requests + msgs.len()) / 9,
    decreases msgs.len(),
{
    if msgs.len() > 0 {
        lemma_counter_cycles(state, msgs.drop_last());
        lemma_announcement_leads(after(state, msgs.drop_last()), msgs.last());
    }
}

/// Of nine messages that follow an announcement, the first eight bring no
/// announcement and the ninth brings one, which leads the actions of its
/// reaction; the count is then back at 0.
pub proof fn lemma_announced_with_the_ninth_message(state: ClientView, msgs: Seq<ReceiveMsgView>)
    requires
        state.num_requests == 0,
        msgs.len() == 9,
    ensures
        announcements(state, msgs.drop_last()) == 0,
        announcements(state, msgs) == 1,
        after(state, msgs).num_requests == 0,
        react(after(state, msgs.drop_last()), msgs.last()).actions[0] == ActionView::Send(
            session_msg(after(state, msgs.drop_last()).session_id),
        ),
{
    lemma_counter_cycles(state, msgs);
    lemma_counter_cycles(state, msgs.drop_last());
    lemma_announcement_leads(after(state, msgs.drop_last()), msgs.last());
}

/// The request that logs a user in with the digest of the password.
pub fn login_request(username: &str, hashed_password: String, session: i8) -> (msg: SendMsg)
    ensures
        msg@ == SendMsgView::Request(
            RequestView::Login {
                username: username@,
                password: hashed_password@,
                max_requests: SESSION_MAX_REQUESTS,
                session,
            },
        ),
{
    SendMsg::Request(
        Request::Login {
            username: username.to_owned(),
            password: hashed_password,
            max_requests: SESSION_MAX_REQUESTS,
            session,
        },
    )
}

impl GrandMa2Client {
    /// Whether the client is in a state that its functions leave it in.
    pub closed spec fn wf(self) -> bool {
        &&& self.num_requests < MAX_REQUESTS
        &&& self.state.wf()
    }

    /// A client that meets its invariant has counted fewer messages than
    /// make an announcement due, and its cache is well-formed.
    pub proof fn lemma_view_wf(self)
        requires
            self.wf(),
        ensures
            self@.num_requests < MAX_REQUESTS,
            self@.cache.wf(),
    {
        self.state.lemma_view_wf();
    }

    /// A client that has no session and has seen nothing.
    pub fn new(username: &str, password: &str) -> (client: GrandMa2Client)
        ensures
            client.wf(),
            client@ == (ClientView {
                username: username@,
                password: password@,
                subscribed_button_range: None,
                subscribed_fader_range: None,
                cache: Ma2StateView { faders: Map::empty(), buttons: Map::empty() },
                logged_in: false,
                session_id: NO_SESSION,
                num_requests: 0,
            }),
    {
        GrandMa2Client {
            username: username.to_owned(),
            password: password.to_owned(),
            subscribed_button_range: None,
            subscribed_fader_range: None,
            state: Ma2State::new(),
            logged_in: false,
            session_id: NO_SESSION,
            num_requests: 0,
        }
    }

    /// The session that the console has given, -1 before it has given one.
    pub fn session_id(&self) -> (id: i8)
        ensures
            id == self@.session_id,
    {
        self.session_id
    }

    /// Whether the console has accepted the login.
    pub fn logged_in(&self) -> (yes: bool)
        ensures
            yes == self@.logged_in,
    {
        self.logged_in
    }

    /// How many messages have come since the session was last announced.
    pub fn num_requests(&self) -> (n: u8)
        ensures
            n == self@.num_requests,
    {
        self.num_requests
    }

    /// The buttons that the client polls.
    pub fn subscribed_button_range(&self) -> (range: Option<ButtonRange>)
        ensures
            range == self@.subscribed_button_range,
    {
        self.subscribed_button_range
    }

    /// The faders that the client polls.
    pub fn subscribed_fader_range(&self) -> (range: Option<FaderRange>)
        ensures
            range == self@.subscribed_fader_range,
    {
        self.subscribed_fader_range
    }

    /// What the client has seen of the console.
    pub fn state(&self) -> (state: &Ma2State)
        ensures
            state@ == self@.cache,
            self.wf() ==> state.wf(),
    {
        &self.state
    }

    /// The digest of the password, as the console wants it.
    pub fn get_hashed_password(&self) -> (hex: String)
        ensures
            hex@ == md5_hex(self@.password),
    {
        hashed_password(self.password.as_str())
    }

    /// The bare announcement of the client's session.
    pub fn send_session(&self) -> (msg: SendMsg)
        ensures
            msg@ == session_msg(self@.session_id),
    {
        SendMsg::Session { session: self.session_id }
    }

    /// The request that logs the client in.
    pub fn send_login(&self) -> (msg: SendMsg)
        ensures
            msg@ == login_msg(self@),
    {
        login_request(self.username.as_str(), self.get_hashed_password(), self.session_id)
    }

    /// The request that ends the session.
    pub fn close_connection(&self) -> (msg: SendMsg)
        ensures
            msg@ == close_msg(self@),
    {
        SendMsg::Request(
            Request::Close { session: self.session_id, max_requests: SESSION_MAX_REQUESTS },
        )
    }

    /// Handles a message of the console.
    pub fn handle_ma2_message(&mut self, msg: ReceiveMsg) -> (reaction: Reaction<()>)
        requires
            old(self).wf(),
        ensures
            final(self).wf(),
            final(self)@ == react(old(self)@, msg@).next,
            action_views(reaction.actions@) == react(old(self)@, msg@).actions,
            result_view(reaction.result) == react(old(self)@, msg@).result,
    {
        let mut actions: Vec<Action> = Vec::new();
        let count: u8 = self.num_requests + 1;
        if count >= MAX_REQUESTS {
            actions.push(Action::Send(self.send_session()));
            self.num_requests = 0;
        } else {
            self.num_requests = count;
        }
        assert(action_views(actions@) =~= announcement(old(self)@));
        assert(self@ == counted(old(self)@));
        let ghost before = self@;
        let ghost prefix = action_views(actions@);
        let result: Result<(), Box<Ma2Error>> = match msg {
            ReceiveMsg::Session { force_login, realtime, world_index, session } => {
                let forced = match force_login {
                    Some(forced) => forced,
                    None => false,
                };
                if forced {
                    self.session_id = session;
                    actions.push(Action::Send(self.send_login()));
                    assert(action_views(actions@) =~= prefix + handle(before, msg@).actions);
                    Ok(())
                } else if session <= -1 {
                    assert(action_views(actions@) =~= prefix + handle(before, msg@).actions);
                    Err(Box::new(Ma2Error::WebRemoteDisabled))
                } else if session == 0 {
                    actions.push(Action::Send(self.send_session()));
                    assert(action_views(actions@) =~= prefix + handle(before, msg@).actions);
                    Err(Box::new(Ma2Error::ConnectedButInvalidSessionId))
                } else {
                    self.session_id = session;
                    assert(action_views(actions@) =~= prefix + handle(before, msg@).actions);
                    Ok(())
                }
            },
            ReceiveMsg::Status { status, app_type } => {
                if same_text(status.as_str(), "server ready") && same_text(app_type.as_str(), "gma2") {
                    actions.push(Action::Send(SendMsg::Session { session: 0 }));
                    assert(action_views(actions@) =~= prefix + handle(before, msg@).actions);
                    Ok(())
                } else {
                    assert(action_views(actions@) =~= prefix + handle(before, msg@).actions);
                    Err(
                        Box::new(
                            Ma2Error::MessageHandlerNotImplemented(
                                ReceiveMsg::Status { status, app_type },
                            ),
                        ),
                    )
                }
            },
            ReceiveMsg::Response(Response::Login { realtime, world_index, result }) => {
                actions.push(Action::Emit(MaEvent::LoginSuccessful(result)));
                assert(action_views(actions@) =~= prefix + handle(before, msg@).actions);
                if result {
                    self.logged_in = true;
                    Ok(())
                } else {
                    Err(
                        Box::new(
                            Ma2Error::LoginFailed {
                                username: self.username.clone(),
                                password: self.password.clone(),
                                hashed_password: self.get_hashed_password(),
                            },
                        ),
                    )
                }
            },
            ReceiveMsg::Response(
                Response::Playbacks { realtime, world_index, response_sub_type, i_page, item_groups },
            ) => {
                let ghost fader_news = news(before.cache.faders, item_groups@.faders, fader_key());
                let ghost button_news = news(
                    before.cache.buttons,
                    item_groups@.buttons,
                    button_key(),
                );
                let diff = self.state.diff_and_update(item_groups);
                let mut i: usize = 0;
                assert(fader_news.take(0) =~= Seq::empty());
                assert(action_views(actions@) =~= prefix + fader_events(fader_news.take(0)));
                while i < diff.fader_data.len()
                    invariant
                        i <= diff.fader_data.len(),
                        diff@.faders == fader_news,
                        action_views(actions@) == prefix + fader_events(fader_news.take(i as int)),
                    decreases diff.fader_data.len() - i,
                {
                    let ghost told_before = actions@;
                    actions.push(Action::Emit(MaEvent::FaderChanged(diff.fader_data[i].duplicate())));
                    proof {
                        let event = ActionView::Emit(MaEventView::FaderChanged(fader_news[i as int]));
                        assert(fader_news[i as int] == diff.fader_data@[i as int]@);
                        assert(action_views(actions@) =~= action_views(told_before).push(event));
                        assert(fader_events(fader_news.take(i + 1)) =~= fader_events(
                            fader_news.take(i as int),
                        ).push(event));
                        assert(action_views(actions@) =~= prefix + fader_events(
                            fader_news.take(i + 1),
                        ));
                    }
                    i += 1;
                }
                assert(fader_news.take(i as int) =~= fader_news);
                let mut j: usize = 0;
                assert(button_news.take(0) =~= Seq::empty());
                assert(action_views(actions@) =~= prefix + fader_events(fader_news)
                    + button_events(button_news.take(0)));
                while j < diff.button_data.len()
                    invariant
                        j <= diff.button_data.len(),
                        diff@.buttons == button_news,
                        action_views(actions@) == prefix + fader_events(fader_news) + button_events(
                            button_news.take(j as int),
                        ),
                    decreases diff.button_data.len() - j,
                {
                    let ghost told_before = actions@;
                    actions.push(
                        Action::Emit(MaEvent::ButtonChanged(diff.button_data[j].duplicate())),
                    );
                    proof {
                        let event = ActionView::Emit(
                            MaEventView::ButtonChanged(button_news[j as int]),
                        );
                        assert(button_news[j as int] == diff.button_data@[j as int]@);
                        assert(action_views(actions@) =~= action_views(told_before).push(event));
                        assert(button_events(button_news.take(j + 1)) =~= button_events(
                            button_news.take(j as int),
                        ).push(event));
                        assert(action_views(actions@) =~= prefix + fader_events(fader_news)
                            + button_events(button_news.take(j + 1)));
                    }
                    j += 1;
                }
                assert(button_news.take(j as int) =~= button_news);
                assert(action_views(actions@) =~= prefix + handle(before, msg@).actions);
                Ok(())
            },
            ReceiveMsg::Response(Response::GetData { realtime, world_index, data }) => {
                assert(action_views(actions@) =~= prefix + handle(before, msg@).actions);
                Err(
                    Box::new(
                        Ma2Error::MessageHandlerNotImplemented(
                            ReceiveMsg::Response(Response::GetData { realtime, world_index, data }),
                        ),
                    ),
                )
            },
            ReceiveMsg::Text { text } => {
                assert(action_views(actions@) =~= prefix + handle(before, msg@).actions);
                Err(Box::new(Ma2Error::MessageHandlerNotImplemented(ReceiveMsg::Text { text })))
            },
        };
        Reaction { actions, result }
    }

    /// Handles a text frame of the console.
    pub fn on_text(&mut self, text: &str) -> (reaction: Reaction<()>)
        requires
            old(self).wf(),
        ensures
            final(self).wf(),
            final(self)@ == react_to_text(old(self)@, text@).next,
            action_views(reaction.actions@) == react_to_text(old(self)@, text@).actions,
            result_view(reaction.result) == react_to_text(old(self)@, text@).result,
    {
        match ReceiveMsg::from_json(text) {
            Ok(msg) => self.handle_ma2_message(msg),
            Err(e) => {
                let actions: Vec<Action> = Vec::new();
                assert(action_views(actions@) =~= Seq::empty());
                Reaction {
                    actions,
                    result: Err(
                        Box::new(Ma2Error::CouldNotDeserializeReceiveMsg(text.to_owned(), e)),
                    ),
                }
            },
        }
    }

    /// Handles a request of the application.
    pub fn handle_request(&mut self, msg: MaRequest) -> (reaction: Reaction<bool>)
        requires
            old(self).wf(),
            can_serve(msg@),
        ensures
            final(self).wf(),
            final(self)@ == serve(old(self)@, msg@).next,
            action_views(reaction.actions@) == serve(old(self)@, msg@).actions,
            result_view(reaction.result) == serve(old(self)@, msg@).result,
    {
        let mut actions: Vec<Action> = Vec::new();
        assert(action_views(actions@) =~= Seq::empty());
        let result: Result<bool, Box<Ma2Error>> = match msg {
            MaRequest::Disconnect => {
                actions.push(Action::Close(self.close_connection()));
                assert(action_views(actions@) =~= serve(old(self)@, msg@).actions);
                Ok(true)
            },
            MaRequest::SubscribeButton(start, end) => match ButtonRange::from(start, end) {
                Ok(range) => {
                    self.subscribed_button_range = Some(range);
                    Ok(false)
                },
                Err(e) => Err(e),
            },
            MaRequest::SubscribeFader(start, end) => match FaderRange::from(start, end) {
                Ok(range) => {
                    self.subscribed_fader_range = Some(range);
                    Ok(false)
                },
                Err(e) => Err(e),
            },
            MaRequest::SetButton(button, data) => Err(
                Box::new(
                    Ma2Error::RequestHandlerNotImplemented(MaRequest::SetButton(button, data)),
                ),
            ),
            MaRequest::SetFader(fader, data) => Err(
                Box::new(Ma2Error::RequestHandlerNotImplemented(MaRequest::SetFader(fader, data))),
            ),
        };
        Reaction { actions, result }
    }

    /// Handles what the request channel hands over: a request, or the news
    /// that the application has dropped its end.
    pub fn on_request(&mut self, msg: Option<MaRequest>) -> (reaction: Reaction<bool>)
        requires
            old(self).wf(),
            msg matches Some(request) ==> can_serve(request@),
        ensures
            final(self).wf(),
            msg matches Some(request) ==> final(self)@ == serve(old(self)@, request@).next
                && action_views(reaction.actions@) == serve(old(self)@, request@).actions
                && result_view(reaction.result) == serve(old(self)@, request@).result,
            msg is None ==> final(self)@ == old(self)@ && reaction.actions@.len() == 0
                && result_view(reaction.result) == Err::<bool, Ma2ErrorView>(
                Ma2ErrorView::RequestChannelClosed,
            ),
    {
        match msg {
            Some(request) => self.handle_request(request),
            None => Reaction {
                actions: Vec::new(),
                result: Err(Box::new(Ma2Error::RequestChannelClosed)),
            },
        }
    }

    /// What the client sends when its timer ticks.
    pub fn on_interval(&self) -> (actions: Vec<Action>)
        ensures
            action_views(actions@) == poll(self@),
    {
        let mut actions: Vec<Action> = Vec::new();
        if let Some(range) = self.subscribed_button_range {
            let mut start_index: Vec<u16> = Vec::new();
            start_index.push(range.start_button.id());
            let mut items_count: Vec<u16> = Vec::new();
            items_count.push(range.num_buttons);
            let mut items_type: Vec<u8> = Vec::new();
            items_type.push(POLL_BUTTONS);
            let msg = SendMsg::Request(
                Request::Playbacks {
                    start_index,
                    items_count,
                    page_index: 0,
                    items_type,
                    view: 2,
                    exec_button_view_mode: 1,
                    buttons_view_mode: 0,
                    max_requests: 1,
                    session: self.session_id,
                },
            );
            assert(msg@->Request_0->Playbacks_start_index =~= seq![
                range.start_button.executor().id,
            ]);
            assert(msg@->Request_0->Playbacks_items_count =~= seq![range.num_buttons]);
            assert(msg@->Request_0->Playbacks_items_type =~= seq![POLL_BUTTONS]);
            actions.push(Action::Send(msg));
        }
        if let Some(range) = self.subscribed_fader_range {
            let mut start_index: Vec<u16> = Vec::new();
            start_index.push(range.start_fader.id());
            let mut items_count: Vec<u16> = Vec::new();
            items_count.push(range.num_faders);
            let mut items_type: Vec<u8> = Vec::new();
            items_type.push(POLL_FADERS);
            let msg = SendMsg::Request(
                Request::Playbacks {
                    start_index,
                    items_count,
                    page_index: 0,
                    items_type,
                    view: 2,
                    exec_button_view_mode: 1,
                    buttons_view_mode: 0,
                    max_requests: 1,
                    session: self.session_id,
                },
            );
            assert(msg@->Request_0->Playbacks_start_index =~= seq![
                range.start_fader.executor().id,
            ]);
            assert(msg@->Request_0->Playbacks_items_count =~= seq![range.num_faders]);
            assert(msg@->Request_0->Playbacks_items_type =~= seq![POLL_FADERS]);
            actions.push(Action::Send(msg));
        }
        assert(action_views(actions@) =~= poll(self@));
        actions
    }

    /// What the client does last, given how its loop ended.
    pub fn finish(&self, outcome: Result<(), Box<Ma2Error>>) -> (actions: Vec<Action>)
        ensures
            action_views(actions@) == farewell(self@, result_view(outcome)),
    {
        let mut actions: Vec<Action> = Vec::new();
        match outcome {
            Ok(()) => {
                actions.push(Action::Emit(MaEvent::Disconnected));
            },
            Err(e) => {
                actions.push(Action::Emit(MaEvent::Error(*e)));
                actions.push(Action::Close(self.close_connection()));
            },
        }
        assert(action_views(actions@) =~= farewell(self@, result_view(outcome)));
        actions
    }
}

} // verus!
