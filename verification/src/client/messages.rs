//! The messages that go to the console and come from it, with their JSON
//! form.

use vstd::prelude::*;

use crate::error::DecodeError;
use crate::json::{
    descend, i8_at, i8_of, json_of_text, json_quoted, push_quoted, step, text_at, text_of,
    truth_at, truth_of, u8_at, u8_of, view_of, Json, JsonView, NumberLiteral,
};
use crate::text::{decimal, push_decimal, push_signed_decimal, same_text, signed_decimal};
use crate::types::executor_data::Ma2DataView;
use crate::types::Ma2Data;

use super::serde::{flags_of, snapshot_of};

verus! {

/// What the client puts on the wire.
///
/// On the wire the two variants carry no tag: a bare session announcement is
/// an object with the single member `session`, a request is an object that
/// starts with `requestType`.
#[derive(Debug, Clone, PartialEq)]
pub enum SendMsg {
    Session { session: i8 },
    Request(Request),
}

/// A request to the console.
#[derive(Debug, Clone, PartialEq)]
pub enum Request {
    GetData { data: String, max_requests: u16, session: i8 },
    Login { username: String, password: String, max_requests: u16, session: i8 },
    Playbacks {
        start_index: Vec<u16>,
        items_count: Vec<u16>,
        page_index: u8,
        items_type: Vec<u8>,
        view: u8,
        exec_button_view_mode: u8,
        buttons_view_mode: u8,
        max_requests: u16,
        session: i8,
    },
    ButtonInput {
        exec_index: u8,
        page_index: u8,
        button_id: u16,
        input_type: u8,
        pressed: bool,
        released: bool,
        max_requests: u16,
        session: i8,
    },
    FaderInput {
        exec_index: u8,
        page_index: u8,
        fader_value: NumberLiteral,
        input_type: u8,
        max_requests: u16,
        session: i8,
    },
    Close { session: i8, max_requests: u16 },
}

/// A [`Request`] as a mathematical value.
pub enum RequestView {
    GetData { data: Seq<char>, max_requests: u16, session: i8 },
    Login { username: Seq<char>, password: Seq<char>, max_requests: u16, session: i8 },
    Playbacks {
        start_index: Seq<u16>,
        items_count: Seq<u16>,
        page_index: u8,
        items_type: Seq<u8>,
        view: u8,
        exec_button_view_mode: u8,
        buttons_view_mode: u8,
        max_requests: u16,
        session: i8,
    },
    ButtonInput {
        exec_index: u8,
        page_index: u8,
        button_id: u16,
        input_type: u8,
        pressed: bool,
        released: bool,
        max_requests: u16,
        session: i8,
    },
    FaderInput {
        exec_index: u8,
        page_index: u8,
        fader_value: Seq<char>,
        input_type: u8,
        max_requests: u16,
        session: i8,
    },
    Close { session: i8, max_requests: u16 },
}

impl View for Request {
    type V = RequestView;

    open spec fn view(&self) -> RequestView {
        match *self {
            Request::GetData { data, max_requests, session } => RequestView::GetData {
                data: data@,
                max_requests,
                session,
            },
            Request::Login { username, password, max_requests, session } => RequestView::Login {
                username: username@,
                password: password@,
                max_requests,
                session,
            },
            Request::Playbacks {
                start_index,
                items_count,
                page_index,
                items_type,
                view,
                exec_button_view_mode,
                buttons_view_mode,
                max_requests,
                session,
            } => RequestView::Playbacks {
                start_index: start_index@,
                items_count: items_count@,
                page_index,
                items_type: items_type@,
                view,
                exec_button_view_mode,
                buttons_view_mode,
                max_requests,
                session,
            },
            Request::ButtonInput {
                exec_index,
                page_index,
                button_id,
                input_type,
                pressed,
                released,
                max_requests,
                session,
            } => RequestView::ButtonInput {
                exec_index,
                page_index,
                button_id,
                input_type,
                pressed,
                released,
                max_requests,
                session,
            },
            Request::FaderInput {
                exec_index,
                page_index,
                fader_value,
                input_type,
                max_requests,
                session,
            } => RequestView::FaderInput {
                exec_index,
                page_index,
                fader_value: fader_value@,
                input_type,
                max_requests,
                session,
            },
            Request::Close { session, max_requests } => RequestView::Close {
                session,
                max_requests,
            },
        }
    }
}

/// A [`SendMsg`] as a mathematical value.
pub enum SendMsgView {
    Session { session: i8 },
    Request(RequestView),
}

impl View for SendMsg {
    type V = SendMsgView;

    open spec fn view(&self) -> SendMsgView {
        match *self {
            SendMsg::Session { session } => SendMsgView::Session { session },
            SendMsg::Request(request) => SendMsgView::Request(request@),
        }
    }
}

/// The text of a truth value.
pub open spec fn truth_text(b: bool) -> Seq<char> {
    if b {
        "true"@
    } else {
        "false"@
    }
}

/// The first `upto` numbers of a list, with commas between them.
pub open spec fn list_body(values: Seq<nat>, upto: int) -> Seq<char>
    decreases upto,
{
    if upto <= 0 {
        Seq::empty()
    } else if upto == 1 {
        decimal(values[0])
    } else {
        list_body(values, upto - 1) + ","@ + decimal(values[upto - 1])
    }
}

/// The text of a list of numbers.
pub open spec fn list_text(values: Seq<nat>) -> Seq<char> {
    "["@ + list_body(values, values.len() as int) + "]"@
}

/// Sixteen-bit numbers as natural numbers.
pub open spec fn wide(values: Seq<u16>) -> Seq<nat> {
    values.map_values(|v: u16| v as nat)
}

/// Bytes as natural numbers.
pub open spec fn wide_bytes(values: Seq<u8>) -> Seq<nat> {
    values.map_values(|v: u8| v as nat)
}

/// The text of a request: a JSON object that starts with the member
/// `requestType` and goes on with the members of the request in their
/// order. Texts that the caller supplies stand as JSON string literals.
pub open spec fn request_text(request: RequestView) -> Seq<char> {
    match request {
        RequestView::GetData { data, max_requests, session } => "{\"requestType\":\"getdata\",\"data\":"@
            + json_quoted(data) + ",\"maxRequests\":"@ + decimal(max_requests as nat)
            + ",\"session\":"@ + signed_decimal(session as int) + "}"@,
        RequestView::Login {
            username,
            password,
            max_requests,
            session,
        } => "{\"requestType\":\"login\",\"username\":"@ + json_quoted(username)
            + ",\"password\":"@ + json_quoted(password) + ",\"maxRequests\":"@ + decimal(
            max_requests as nat,
        ) + ",\"session\":"@ + signed_decimal(session as int) + "}"@,
        RequestView::Playbacks {
            start_index,
            items_count,
            page_index,
            items_type,
            view,
            exec_button_view_mode,
            buttons_view_mode,
            max_requests,
            session,
        } => "{\"requestType\":\"playbacks\",\"startIndex\":"@ + list_text(wide(start_index))
            + ",\"itemsCount\":"@ + list_text(wide(items_count)) + ",\"pageIndex\":"@ + decimal(
            page_index as nat,
        ) + ",\"itemsType\":"@ + list_text(wide_bytes(items_type)) + ",\"view\":"@ + decimal(
            view as nat,
        ) + ",\"execButtonViewMode\":"@ + decimal(exec_button_view_mode as nat)
            + ",\"buttonsViewMode\":"@ + decimal(buttons_view_mode as nat) + ",\"maxRequests\":"@
            + decimal(max_requests as nat) + ",\"session\":"@ + signed_decimal(session as int)
            + "}"@,
        RequestView::ButtonInput {
            exec_index,
            page_index,
            button_id,
            input_type,
            pressed,
            released,
            max_requests,
            session,
        } => "{\"requestType\":\"playbacks_userInput\",\"execIndex\":"@ + decimal(
            exec_index as nat,
        ) + ",\"pageIndex\":"@ + decimal(page_index as nat) + ",\"buttonId\":"@ + decimal(
            button_id as nat,
        ) + ",\"type\":"@ + decimal(input_type as nat) + ",\"pressed\":"@ + truth_text(pressed)
            + ",\"released\":"@ + truth_text(released) + ",\"maxRequests\":"@ + decimal(
            max_requests as nat,
        ) + ",\"session\":"@ + signed_decimal(session as int) + "}"@,
        RequestView::FaderInput {
            exec_index,
            page_index,
            fader_value,
            input_type,
            max_requests,
            session,
        } => "{\"requestType\":\"playbacks_userInput\",\"execIndex\":"@ + decimal(
            exec_index as nat,
        ) + ",\"pageIndex\":"@ + decimal(page_index as nat) + ",\"faderValue\":"@ + fader_value
            + ",\"type\":"@ + decimal(input_type as nat) + ",\"maxRequests\":"@ + decimal(
            max_requests as nat,
        ) + ",\"session\":"@ + signed_decimal(session as int) + "}"@,
        RequestView::Close { session, max_requests } => "{\"requestType\":\"close\",\"session\":"@
            + signed_decimal(session as int) + ",\"maxRequests\":"@ + decimal(max_requests as nat)
            + "}"@,
    }
}

/// The text of a message to the console.
pub open spec fn wire_text(msg: SendMsgView) -> Seq<char> {
    match msg {
        SendMsgView::Session { session } => "{\"session\":"@ + signed_decimal(session as int) + "}"@,
        SendMsgView::Request(request) => request_text(request),
    }
}

/// Appends the text of a truth value.
fn push_truth(buf: &mut String, b: bool)
    ensures
        final(buf)@ == old(buf)@ + truth_text(b),
{
    if b {
        buf.append("true");
    } else {
        buf.append("false");
    }
}

/// Appends the text of a list of sixteen-bit numbers.
fn push_list(buf: &mut String, values: &Vec<u16>)
    ensures
        final(buf)@ == old(buf)@ + list_text(wide(values@)),
{
    let ghost numbers = wide(values@);
    let ghost start = buf@;
    buf.append("[");
    let mut i: usize = 0;
    while i < values.len()
        invariant
            i <= values.len(),
            numbers == wide(values@),
            buf@ == start + "["@ + list_body(numbers, i as int),
        decreases values.len() - i,
    {
        if i > 0 {
            buf.append(",");
        }
        push_decimal(buf, values[i] as u64);
        assert(numbers[i as int] == values@[i as int] as nat);
        assert(buf@ =~= start + "["@ + list_body(numbers, i + 1));
        i += 1;
    }
    buf.append("]");
    assert(buf@ =~= start + list_text(numbers));
}

/// Appends the text of a list of bytes.
fn push_byte_list(buf: &mut String, values: &Vec<u8>)
    ensures
        final(buf)@ == old(buf)@ + list_text(wide_bytes(values@)),
{
    let ghost numbers = wide_bytes(values@);
    let ghost start = buf@;
    buf.append("[");
    let mut i: usize = 0;
    while i < values.len()
        invariant
            i <= values.len(),
            numbers == wide_bytes(values@),
            buf@ == start + "["@ + list_body(numbers, i as int),
        decreases values.len() - i,
    {
        if i > 0 {
            buf.append(",");
        }
        push_decimal(buf, values[i] as u64);
        assert(numbers[i as int] == values@[i as int] as nat);
        assert(buf@ =~= start + "["@ + list_body(numbers, i + 1));
        i += 1;
    }
    buf.append("]");
    assert(buf@ =~= start + list_text(numbers));
}

impl Request {
    /// The JSON text of the request.
    pub fn to_json(&self) -> (text: String)
        ensures
            text@ == request_text(self@),
    {
        let mut buf = String::new();
        match self {
            Request::GetData { data, max_requests, session } => {
                buf.append("{\"requestType\":\"getdata\",\"data\":");
                push_quoted(&mut buf, data.as_str());
                buf.append(",\"maxRequests\":");
                push_decimal(&mut buf, *max_requests as u64);
                buf.append(",\"session\":");
                push_signed_decimal(&mut buf, *session as i64);
                buf.append("}");
            },
            Request::Login { username, password, max_requests, session } => {
                buf.append("{\"requestType\":\"login\",\"username\":");
                push_quoted(&mut buf, username.as_str());
                buf.append(",\"password\":");
                push_quoted(&mut buf, password.as_str());
                buf.append(",\"maxRequests\":");
                push_decimal(&mut buf, *max_requests as u64);
                buf.append(",\"session\":");
                push_signed_decimal(&mut buf, *session as i64);
                buf.append("}");
            },
            Request::Playbacks {
                start_index,
                items_count,
                page_index,
                items_type,
                view,
                exec_button_view_mode,
                buttons_view_mode,
                max_requests,
                session,
            } => {
                buf.append("{\"requestType\":\"playbacks\",\"startIndex\":");
                push_list(&mut buf, start_index);
                buf.append(",\"itemsCount\":");
                push_list(&mut buf, items_count);
                buf.append(",\"pageIndex\":");
                push_decimal(&mut buf, *page_index as u64);
                buf.append(",\"itemsType\":");
                push_byte_list(&mut buf, items_type);
                buf.append(",\"view\":");
                push_decimal(&mut buf, *view as u64);
                buf.append(",\"execButtonViewMode\":");
                push_decimal(&mut buf, *exec_button_view_mode as u64);
                buf.append(",\"buttonsViewMode\":");
                push_decimal(&mut buf, *buttons_view_mode as u64);
                buf.append(",\"maxRequests\":");
                push_decimal(&mut buf, *max_requests as u64);
                buf.append(",\"session\":");
                push_signed_decimal(&mut buf, *session as i64);
                buf.append("}");
            },
            Request::ButtonInput {
                exec_index,
                page_index,
                button_id,
                input_type,
                pressed,
                released,
                max_requests,
                session,
            } => {
                buf.append("{\"requestType\":\"playbacks_userInput\",\"execIndex\":");
                push_decimal(&mut buf, *exec_index as u64);
                buf.append(",\"pageIndex\":");
                push_decimal(&mut buf, *page_index as u64);
                buf.append(",\"buttonId\":");
                push_decimal(&mut buf, *button_id as u64);
                buf.append(",\"type\":");
                push_decimal(&mut buf, *input_type as u64);
                buf.append(",\"pressed\":");
                push_truth(&mut buf, *pressed);
                buf.append(",\"released\":");
                push_truth(&mut buf, *released);
                buf.append(",\"maxRequests\":");
                push_decimal(&mut buf, *max_requests as u64);
                buf.append(",\"session\":");
                push_signed_decimal(&mut buf, *session as i64);
                buf.append("}");
            },
            Request::FaderInput {
                exec_index,
                page_index,
                fader_value,
                input_type,
                max_requests,
                session,
            } => {
                buf.append("{\"requestType\":\"playbacks_userInput\",\"execIndex\":");
                push_decimal(&mut buf, *exec_index as u64);
                buf.append(",\"pageIndex\":");
                push_decimal(&mut buf, *page_index as u64);
                buf.append(",\"faderValue\":");
                buf.append(fader_value.as_str());
                buf.append(",\"type\":");
                push_decimal(&mut buf, *input_type as u64);
                buf.append(",\"maxRequests\":");
                push_decimal(&mut buf, *max_requests as u64);
                buf.append(",\"session\":");
                push_signed_decimal(&mut buf, *session as i64);
                buf.append("}");
            },
            Request::Close { session, max_requests } => {
                buf.append("{\"requestType\":\"close\",\"session\":");
                push_signed_decimal(&mut buf, *session as i64);
                buf.append(",\"maxRequests\":");
                push_decimal(&mut buf, *max_requests as u64);
                buf.append("}");
            },
        }
        assert(buf@ =~= request_text(self@));
        buf
    }
}

impl SendMsg {
    /// The JSON text of the message.
    pub fn to_json(&self) -> (text: String)
        ensures
            text@ == wire_text(self@),
    {
        match self {
            SendMsg::Session { session } => {
                let mut buf = String::new();
                buf.append("{\"session\":");
                push_signed_decimal(&mut buf, *session as i64);
                buf.append("}");
                assert(buf@ =~= wire_text(self@));
                buf
            },
            SendMsg::Request(request) => request.to_json(),
        }
    }
}

/// What the console puts on the wire.
#[derive(Debug, Clone, PartialEq)]
pub enum ReceiveMsg {
    Session { force_login: Option<bool>, realtime: bool, world_index: u8, session: i8 },
    Response(Response),
    Status { status: String, app_type: String },
    Text { text: String },
}

/// A reply of the console to a request.
#[derive(Debug, Clone, PartialEq)]
pub enum Response {
    GetData { realtime: bool, world_index: u8, data: MaDataResponse },
    Login { realtime: bool, world_index: u8, result: bool },
    Playbacks {
        realtime: bool,
        world_index: u8,
        response_sub_type: u8,
        i_page: u8,
        item_groups: Ma2Data,
    },
}

/// The four flags of a `getdata` reply.
#[derive(Debug, Clone, PartialEq, Eq)]
pub struct MaDataResponse {
    pub set: String,
    pub clear: String,
    pub solo: String,
    pub high: String,
}

/// A [`MaDataResponse`] as a mathematical value.
pub struct MaDataResponseView {
    pub set: Seq<char>,
    pub clear: Seq<char>,
    pub solo: Seq<char>,
    pub high: Seq<char>,
}

impl View for MaDataResponse {
    type V = MaDataResponseView;

    open spec fn view(&self) -> MaDataResponseView {
        MaDataResponseView {
            set: self.set@,
            clear: self.clear@,
            solo: self.solo@,
            high: self.high@,
        }
    }
}

/// A [`Response`] as a mathematical value.
pub enum ResponseView {
    GetData { realtime: bool, world_index: u8, data: MaDataResponseView },
    Login { realtime: bool, world_index: u8, result: bool },
    Playbacks {
        realtime: bool,
        world_index: u8,
        response_sub_type: u8,
        i_page: u8,
        item_groups: Ma2DataView,
    },
}

impl View for Response {
    type V = ResponseView;

    open spec fn view(&self) -> ResponseView {
        match *self {
            Response::GetData { realtime, world_index, data } => ResponseView::GetData {
                realtime,
                world_index,
                data: data@,
            },
            Response::Login { realtime, world_index, result } => ResponseView::Login {
                realtime,
                world_index,
                result,
            },
            Response::Playbacks {
                realtime,
                world_index,
                response_sub_type,
                i_page,
                item_groups,
            } => ResponseView::Playbacks {
                realtime,
                world_index,
                response_sub_type,
                i_page,
                item_groups: item_groups@,
            },
        }
    }
}

/// A [`ReceiveMsg`] as a mathematical value.
pub enum ReceiveMsgView {
    Session { force_login: Option<bool>, realtime: bool, world_index: u8, session: i8 },
    Response(ResponseView),
    Status { status: Seq<char>, app_type: Seq<char> },
    Text { text: Seq<char> },
}

impl View for ReceiveMsg {
    type V = ReceiveMsgView;

    open spec fn view(&self) -> ReceiveMsgView {
        match *self {
            ReceiveMsg::Session {
                force_login,
                realtime,
                world_index,
                session,
            } => ReceiveMsgView::Session { force_login, realtime, world_index, session },
            ReceiveMsg::Response(response) => ReceiveMsgView::Response(response@),
            ReceiveMsg::Status { status, app_type } => ReceiveMsgView::Status {
                status: status@,
                app_type: app_type@,
            },
            ReceiveMsg::Text { text } => ReceiveMsgView::Text { text: text@ },
        }
    }
}

/// The truth value of a member that may be left out: nothing if the member
/// is absent or null, its value if it is a boolean. Any other member does
/// not fit.
pub open spec fn optional_truth(doc: Option<JsonView>) -> Option<Option<bool>> {
    match doc {
        None => Some(None),
        Some(JsonView::Null) => Some(None),
        Some(JsonView::Bool(b)) => Some(Some(b)),
        Some(_) => None,
    }
}

/// A document read as a session announcement: it has `realtime`,
/// `worldIndex` and `session` of the right types, and `forceLogin`, if it is
/// there, is a boolean or null.
pub open spec fn session_shape(doc: JsonView) -> Option<ReceiveMsgView> {
    let force_login = optional_truth(step(Some(doc), "forceLogin"@));
    let realtime = truth_of(step(Some(doc), "realtime"@));
    let world_index = u8_of(step(Some(doc), "worldIndex"@));
    let session = i8_of(step(Some(doc), "session"@));
    if force_login is Some && realtime is Some && world_index is Some && session is Some {
        Some(
            ReceiveMsgView::Session {
                force_login: force_login->0,
                realtime: realtime->0,
                world_index: world_index->0,
                session: session->0,
            },
        )
    } else {
        None
    }
}

/// A document read as a `getdata` reply.
pub open spec fn getdata_shape(doc: JsonView) -> Option<ResponseView> {
    let realtime = truth_of(step(Some(doc), "realtime"@));
    let world_index = u8_of(step(Some(doc), "worldIndex"@));
    let data = step(Some(doc), "data"@);
    if realtime is Some && world_index is Some && data is Some && flags_of(data->0) is Ok {
        Some(
            ResponseView::GetData {
                realtime: realtime->0,
                world_index: world_index->0,
                data: flags_of(data->0)->Ok_0,
            },
        )
    } else {
        None
    }
}

/// A document read as a `login` reply.
pub open spec fn login_shape(doc: JsonView) -> Option<ResponseView> {
    let realtime = truth_of(step(Some(doc), "realtime"@));
    let world_index = u8_of(step(Some(doc), "worldIndex"@));
    let result = truth_of(step(Some(doc), "result"@));
    if realtime is Some && world_index is Some && result is Some {
        Some(
            ResponseView::Login {
                realtime: realtime->0,
                world_index: world_index->0,
                result: result->0,
            },
        )
    } else {
        None
    }
}

/// A document read as a `playbacks` reply.
pub open spec fn playbacks_shape(doc: JsonView) -> Option<ResponseView> {
    let realtime = truth_of(step(Some(doc), "realtime"@));
    let world_index = u8_of(step(Some(doc), "worldIndex"@));
    let response_sub_type = u8_of(step(Some(doc), "responseSubType"@));
    let i_page = u8_of(step(Some(doc), "iPage"@));
    let groups = step(Some(doc), "itemGroups"@);
    if realtime is Some && world_index is Some && response_sub_type is Some && i_page is Some
        && groups is Some && snapshot_of(groups->0) is Ok {
        Some(
            ResponseView::Playbacks {
                realtime: realtime->0,
                world_index: world_index->0,
                response_sub_type: response_sub_type->0,
                i_page: i_page->0,
                item_groups: snapshot_of(groups->0)->Ok_0,
            },
        )
    } else {
        None
    }
}

/// A document read as a reply: the text at `responseType` says which.
pub open spec fn response_shape(doc: JsonView) -> Option<ResponseView> {
    match text_of(step(Some(doc), "responseType"@)) {
        Some(tag) => if tag == "getdata"@ {
            getdata_shape(doc)
        } else if tag == "login"@ {
            login_shape(doc)
        } else if tag == "playbacks"@ {
            playbacks_shape(doc)
        } else {
            None
        },
        None => None,
    }
}

/// A document read as a status report.
pub open spec fn status_shape(doc: JsonView) -> Option<ReceiveMsgView> {
    let status = text_of(step(Some(doc), "status"@));
    let app_type = text_of(step(Some(doc), "appType"@));
    if status is Some && app_type is Some {
        Some(ReceiveMsgView::Status { status: status->0, app_type: app_type->0 })
    } else {
        None
    }
}

/// A document read as a free text.
pub open spec fn text_shape(doc: JsonView) -> Option<ReceiveMsgView> {
    match text_of(step(Some(doc), "text"@)) {
        Some(text) => Some(ReceiveMsgView::Text { text }),
        None => None,
    }
}

/// The message that a document is: the first of session announcement,
/// reply, status report and free text whose members it has. Members that a
/// shape does not name are passed over.
pub open spec fn message_of(doc: JsonView) -> Option<ReceiveMsgView> {
    if session_shape(doc) is Some {
        session_shape(doc)
    } else if response_shape(doc) is Some {
        Some(ReceiveMsgView::Response(response_shape(doc)->0))
    } else if status_shape(doc) is Some {
        status_shape(doc)
    } else {
        text_shape(doc)
    }
}

/// Reads a truth value that may be left out.
fn read_optional_truth(doc: Option<&Json>) -> (r: Option<Option<bool>>)
    ensures
        r == optional_truth(view_of(doc)),
{
    match doc {
        None => Some(None),
        Some(Json::Null) => Some(None),
        Some(Json::Bool(b)) => Some(Some(*b)),
        Some(_) => None,
    }
}

impl Response {
    /// Reads a reply, if the document is one.
    pub fn deserialize(doc: &Json) -> (r: Option<Response>)
        ensures
            r is Some <==> response_shape(doc@) is Some,
            r matches Some(response) ==> response_shape(doc@) == Some(response@),
    {
        let tag = match text_at(descend(Some(doc), "responseType")) {
            Some(tag) => tag,
            None => return None,
        };
        let realtime = truth_at(descend(Some(doc), "realtime"));
        let world_index = u8_at(descend(Some(doc), "worldIndex"));
        if same_text(tag, "getdata") {
            let realtime = realtime?;
            let world_index = world_index?;
            let data = match descend(Some(doc), "data") {
                Some(data) => match MaDataResponse::deserialize(data) {
                    Ok(data) => data,
                    Err(_) => return None,
                },
                None => return None,
            };
            Some(Response::GetData { realtime, world_index, data })
        } else if same_text(tag, "login") {
            let realtime = realtime?;
            let world_index = world_index?;
            let result = truth_at(descend(Some(doc), "result"))?;
            Some(Response::Login { realtime, world_index, result })
        } else if same_text(tag, "playbacks") {
            let realtime = realtime?;
            let world_index = world_index?;
            let response_sub_type = u8_at(descend(Some(doc), "responseSubType"))?;
            let i_page = u8_at(descend(Some(doc), "iPage"))?;
            let item_groups = match descend(Some(doc), "itemGroups") {
                Some(groups) => match Ma2Data::deserialize(groups) {
                    Ok(item_groups) => item_groups,
                    Err(_) => return None,
                },
                None => return None,
            };
            Some(Response::Playbacks { realtime, world_index, response_sub_type, i_page, item_groups })
        } else {
            None
        }
    }
}

impl ReceiveMsg {
    /// Reads a session announcement, if the document is one.
    fn read_session(doc: &Json) -> (r: Option<ReceiveMsg>)
        ensures
            r is Some <==> session_shape(doc@) is Some,
            r matches Some(msg) ==> session_shape(doc@) == Some(msg@),
    {
        let force_login = read_optional_truth(descend(Some(doc), "forceLogin"))?;
        let realtime = truth_at(descend(Some(doc), "realtime"))?;
        let world_index = u8_at(descend(Some(doc), "worldIndex"))?;
        let session = i8_at(descend(Some(doc), "session"))?;
        Some(ReceiveMsg::Session { force_login, realtime, world_index, session })
    }

    /// Reads a status report, if the document is one.
    fn read_status(doc: &Json) -> (r: Option<ReceiveMsg>)
        ensures
            r is Some <==> status_shape(doc@) is Some,
            r matches Some(msg) ==> status_shape(doc@) == Some(msg@),
    {
        let status = text_at(descend(Some(doc), "status"))?;
        let app_type = text_at(descend(Some(doc), "appType"))?;
        Some(ReceiveMsg::Status { status: status.to_owned(), app_type: app_type.to_owned() })
    }

    /// Reads a free text, if the document is one.
    fn read_text(doc: &Json) -> (r: Option<ReceiveMsg>)
        ensures
            r is Some <==> text_shape(doc@) is Some,
            r matches Some(msg) ==> text_shape(doc@) == Some(msg@),
    {
        let text = text_at(descend(Some(doc), "text"))?;
        Some(ReceiveMsg::Text { text: text.to_owned() })
    }

    /// Reads a message of the console from a document.
    pub fn deserialize(doc: &Json) -> (r: Result<ReceiveMsg, DecodeError>)
        ensures
            r is Ok <==> message_of(doc@) is Some,
            r matches Ok(msg) ==> message_of(doc@) == Some(msg@),
            r matches Err(e) ==> e == DecodeError::NoMatchingShape,
    {
        if let Some(msg) = ReceiveMsg::read_session(doc) {
            return Ok(msg);
        }
        if let Some(response) = Response::deserialize(doc) {
            return Ok(ReceiveMsg::Response(response));
        }
        if let Some(msg) = ReceiveMsg::read_status(doc) {
            return Ok(msg);
        }
        if let Some(msg) = ReceiveMsg::read_text(doc) {
            return Ok(msg);
        }
        Err(DecodeError::NoMatchingShape)
    }

    /// Reads a message of the console from its JSON text.
    pub fn from_json(text: &str) -> (r: Result<ReceiveMsg, DecodeError>)
        ensures
            r is Ok <==> json_of_text(text@) is Some && message_of(json_of_text(text@)->0) is Some,
            r matches Ok(msg) ==> message_of(json_of_text(text@)->0) == Some(msg@),
            r matches Err(e) ==> e == if json_of_text(text@) is None {
                DecodeError::InvalidJson
            } else {
                DecodeError::NoMatchingShape
            },
    {
        let doc = Json::parse(text)?;
        ReceiveMsg::deserialize(&doc)
    }
}

} // verus!
