//! What the application and the client tell each other.

use vstd::prelude::*;

use crate::error::{Ma2Error, Ma2ErrorView};
use crate::types::executor_data::{ButtonDataView, FaderDataView};
use crate::types::{ButtonData, ButtonExecutor, FaderData, FaderExecutor};

verus! {

/// A request of the application to the client.
#[derive(Debug)]
pub enum MaRequest {
    Disconnect,
    SubscribeButton(ButtonExecutor, ButtonExecutor),
    SubscribeFader(FaderExecutor, FaderExecutor),
    SetButton(ButtonExecutor, ButtonData),
    SetFader(FaderExecutor, FaderData),
}

/// What the client tells the application.
#[derive(Debug)]
pub enum MaEvent {
    Disconnected,
    LoginSuccessful(bool),
    FaderChanged(FaderData),
    ButtonChanged(ButtonData),
    Error(Ma2Error),
}

/// A [`MaRequest`] as a mathematical value.
pub enum MaRequestView {
    Disconnect,
    SubscribeButton(ButtonExecutor, ButtonExecutor),
    SubscribeFader(FaderExecutor, FaderExecutor),
    SetButton(ButtonExecutor, ButtonDataView),
    SetFader(FaderExecutor, FaderDataView),
}

impl View for MaRequest {
    type V = MaRequestView;

    open spec fn view(&self) -> MaRequestView {
        match *self {
            MaRequest::Disconnect => MaRequestView::Disconnect,
            MaRequest::SubscribeButton(first, last) => MaRequestView::SubscribeButton(first, last),
            MaRequest::SubscribeFader(first, last) => MaRequestView::SubscribeFader(first, last),
            MaRequest::SetButton(button, data) => MaRequestView::SetButton(button, data@),
            MaRequest::SetFader(fader, data) => MaRequestView::SetFader(fader, data@),
        }
    }
}

/// A [`MaEvent`] as a mathematical value.
pub enum MaEventView {
    Disconnected,
    LoginSuccessful(bool),
    FaderChanged(FaderDataView),
    ButtonChanged(ButtonDataView),
    Error(Ma2ErrorView),
}

impl View for MaEvent {
    type V = MaEventView;

    open spec fn view(&self) -> MaEventView {
        match *self {
            MaEvent::Disconnected => MaEventView::Disconnected,
            MaEvent::LoginSuccessful(success) => MaEventView::LoginSuccessful(success),
            MaEvent::FaderChanged(data) => MaEventView::FaderChanged(data@),
            MaEvent::ButtonChanged(data) => MaEventView::ButtonChanged(data@),
            MaEvent::Error(e) => MaEventView::Error(e@),
        }
    }
}

} // verus!
