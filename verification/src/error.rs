//! The errors of the client and of its decoders.

use vstd::prelude::*;

use crate::client::messages::{ReceiveMsgView, SendMsgView};
use crate::client::{ReceiveMsg, SendMsg};
use crate::interface::messages::MaRequestView;
use crate::interface::MaRequest;
use crate::types::{ButtonExecutor, Executor, FaderExecutor};

verus! {

/// The places of a console message that the decoders read.
#[derive(Debug, Clone, Copy, PartialEq, Eq, Structural)]
pub enum Field {
    /// The id of an item, a string of digits.
    ExecutorId,
    /// The name that an item shows.
    Name,
    /// The colour of an item.
    Color,
    /// The level of a fader.
    FaderValue,
    /// The state of the first button of a fader.
    Button1,
    /// The state of the second button of a fader.
    Button2,
    /// The state of the third button of a fader.
    Button3,
    /// Whether a button is active.
    IsRun,
    /// The list of item groups.
    ItemGroups,
    /// The kind of the items of a group.
    ItemsType,
    /// The rows of items of a group.
    Items,
    /// One row of items.
    ItemRow,
    /// The list of flags of a `getdata` reply, or one entry of it.
    Flags,
    SetFlag,
    ClearFlag,
    SoloFlag,
    HighFlag,
}

impl Field {
    /// The path of the place inside the message.
    pub fn path(&self) -> (path: &'static str)
        ensures
            path@ == self.path_text(),
    {
        match self {
            Field::ExecutorId => "i.t",
            Field::Name => "tt.t",
            Field::Color => "bdC",
            Field::FaderValue => "executorBlocks[0].fader.v",
            Field::Button1 => "executorBlocks[0].button1.s",
            Field::Button2 => "executorBlocks[0].button2.s",
            Field::Button3 => "executorBlocks[0].button3.s",
            Field::IsRun => "isRun",
            Field::ItemGroups => "itemGroups",
            Field::ItemsType => "itemsType",
            Field::Items => "items",
            Field::ItemRow => "items[]",
            Field::Flags => "data",
            Field::SetFlag => "set",
            Field::ClearFlag => "clear",
            Field::SoloFlag => "solo",
            Field::HighFlag => "high",
        }
    }

    /// The path of the place inside the message.
    pub open spec fn path_text(self) -> Seq<char> {
        match self {
            Field::ExecutorId => "i.t"@,
            Field::Name => "tt.t"@,
            Field::Color => "bdC"@,
            Field::FaderValue => "executorBlocks[0].fader.v"@,
            Field::Button1 => "executorBlocks[0].button1.s"@,
            Field::Button2 => "executorBlocks[0].button2.s"@,
            Field::Button3 => "executorBlocks[0].button3.s"@,
            Field::IsRun => "isRun"@,
            Field::ItemGroups => "itemGroups"@,
            Field::ItemsType => "itemsType"@,
            Field::Items => "items"@,
            Field::ItemRow => "items[]"@,
            Field::Flags => "data"@,
            Field::SetFlag => "set"@,
            Field::ClearFlag => "clear"@,
            Field::SoloFlag => "solo"@,
            Field::HighFlag => "high"@,
        }
    }
}

/// Why a JSON text could not be read as a message of the console.
#[derive(Debug, Clone, Copy, PartialEq, Eq, Structural)]
pub enum DecodeError {
    /// The text is not well-formed JSON.
    InvalidJson,
    /// The member at this place is absent or not of the type it should have.
    MissingField(Field),
    /// The item's id does not address a fader.
    NotAFader(u16),
    /// The item's id does not address a button.
    NotAButton(u16),
    /// A group holds items that are neither faders nor buttons.
    InvalidItemsType(u64),
    /// A `getdata` reply names a flag that the client does not know.
    UnknownKey,
    /// The document has the shape of no message.
    NoMatchingShape,
}

/// Everything that ends the client or refuses a request.
#[derive(Debug)]
pub enum Ma2Error {
    FailedToConnect { url: String, cause: String },
    WebsocketNotYetConnected,
    ConnectedButInvalidSessionId,
    WebRemoteDisabled,
    WebsocketFailedToSend(String),
    CouldNotDeserializeReceiveMsg(String, DecodeError),
    CouldNotSerializeSendMsg(SendMsg),
    MessageHandlerNotImplemented(ReceiveMsg),
    RequestHandlerNotImplemented(MaRequest),
    NotYetConnected,
    RequestChannelClosed,
    EventChannelClosed,
    LoginFailed { username: String, password: String, hashed_password: String },
    InvalidButtonRange(ButtonExecutor, ButtonExecutor),
    InvalidFaderRange(FaderExecutor, FaderExecutor),
    SerializeError(SendMsg),
    DeserialzeError(String),
    ButtonIdOutOfRange(Executor),
    FaderIdOutOfRange(Executor),
}

/// A [`Ma2Error`] as a mathematical value.
pub enum Ma2ErrorView {
    FailedToConnect { url: Seq<char>, cause: Seq<char> },
    WebsocketNotYetConnected,
    ConnectedButInvalidSessionId,
    WebRemoteDisabled,
    WebsocketFailedToSend(Seq<char>),
    CouldNotDeserializeReceiveMsg(Seq<char>, DecodeError),
    CouldNotSerializeSendMsg(SendMsgView),
    MessageHandlerNotImplemented(ReceiveMsgView),
    RequestHandlerNotImplemented(MaRequestView),
    NotYetConnected,
    RequestChannelClosed,
    EventChannelClosed,
    LoginFailed { username: Seq<char>, password: Seq<char>, hashed_password: Seq<char> },
    InvalidButtonRange(ButtonExecutor, ButtonExecutor),
    InvalidFaderRange(FaderExecutor, FaderExecutor),
    SerializeError(SendMsgView),
    DeserialzeError(Seq<char>),
    ButtonIdOutOfRange(Executor),
    FaderIdOutOfRange(Executor),
}

impl View for Ma2Error {
    type V = Ma2ErrorView;

    open spec fn view(&self) -> Ma2ErrorView {
        match *self {
            Ma2Error::FailedToConnect { url, cause } => Ma2ErrorView::FailedToConnect {
                url: url@,
                cause: cause@,
            },
            Ma2Error::WebsocketNotYetConnected => Ma2ErrorView::WebsocketNotYetConnected,
            Ma2Error::ConnectedButInvalidSessionId => Ma2ErrorView::ConnectedButInvalidSessionId,
            Ma2Error::WebRemoteDisabled => Ma2ErrorView::WebRemoteDisabled,
            Ma2Error::WebsocketFailedToSend(cause) => Ma2ErrorView::WebsocketFailedToSend(cause@),
            Ma2Error::CouldNotDeserializeReceiveMsg(
                text,
                e,
            ) => Ma2ErrorView::CouldNotDeserializeReceiveMsg(text@, e),
            Ma2Error::CouldNotSerializeSendMsg(msg) => Ma2ErrorView::CouldNotSerializeSendMsg(
                msg@,
            ),
            Ma2Error::MessageHandlerNotImplemented(
                msg,
            ) => Ma2ErrorView::MessageHandlerNotImplemented(msg@),
            Ma2Error::RequestHandlerNotImplemented(
                request,
            ) => Ma2ErrorView::RequestHandlerNotImplemented(request@),
            Ma2Error::NotYetConnected => Ma2ErrorView::NotYetConnected,
            Ma2Error::RequestChannelClosed => Ma2ErrorView::RequestChannelClosed,
            Ma2Error::EventChannelClosed => Ma2ErrorView::EventChannelClosed,
            Ma2Error::LoginFailed {
                username,
                password,
                hashed_password,
            } => Ma2ErrorView::LoginFailed {
                username: username@,
                password: password@,
                hashed_password: hashed_password@,
            },
            Ma2Error::InvalidButtonRange(first, last) => Ma2ErrorView::InvalidButtonRange(
                first,
                last,
            ),
            Ma2Error::InvalidFaderRange(first, last) => Ma2ErrorView::InvalidFaderRange(
                first,
                last,
            ),
            Ma2Error::SerializeError(msg) => Ma2ErrorView::SerializeError(msg@),
            Ma2Error::DeserialzeError(text) => Ma2ErrorView::DeserialzeError(text@),
            Ma2Error::ButtonIdOutOfRange(executor) => Ma2ErrorView::ButtonIdOutOfRange(executor),
            Ma2Error::FaderIdOutOfRange(executor) => Ma2ErrorView::FaderIdOutOfRange(executor),
        }
    }
}

} // verus!
