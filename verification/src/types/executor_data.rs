//! What the console reports of its faders and buttons.

use vstd::prelude::*;
use vstd::std_specs::cmp::PartialEqSpecImpl;
use vstd::std_specs::convert::FromSpecImpl;

use super::executor::{ButtonExecutor, Executor, FaderExecutor};

verus! {

/// Whether a button is held down.
#[derive(Debug, Clone, Copy, PartialEq, Eq, Structural)]
pub enum ButtonState {
    Released,
    Pressed,
}

impl From<bool> for ButtonState {
    fn from(value: bool) -> (state: ButtonState) {
        if value {
            ButtonState::Pressed
        } else {
            ButtonState::Released
        }
    }
}

impl FromSpecImpl<bool> for ButtonState {
    open spec fn obeys_from_spec() -> bool {
        true
    }

    open spec fn from_spec(value: bool) -> ButtonState {
        if value {
            ButtonState::Pressed
        } else {
            ButtonState::Released
        }
    }
}

impl From<ButtonState> for bool {
    fn from(state: ButtonState) -> (value: bool) {
        match state {
            ButtonState::Released => true,
            ButtonState::Pressed => false,
        }
    }
}

impl FromSpecImpl<ButtonState> for bool {
    open spec fn obeys_from_spec() -> bool {
        true
    }

    open spec fn from_spec(state: ButtonState) -> bool {
        state == ButtonState::Released
    }
}

/// What the console reports of one button.
#[derive(Debug, Clone)]
pub struct ButtonData {
    executor: ButtonExecutor,
    name: String,
    color: String,
    state: ButtonState,
}

/// A [`ButtonData`] as a mathematical value.
pub struct ButtonDataView {
    pub executor: Executor,
    pub name: Seq<char>,
    pub color: Seq<char>,
    pub state: ButtonState,
}

impl View for ButtonData {
    type V = ButtonDataView;

    closed spec fn view(&self) -> ButtonDataView {
        ButtonDataView {
            executor: self.executor.executor(),
            name: self.name@,
            color: self.color@,
            state: self.state,
        }
    }
}

impl ButtonData {
    pub fn new(executor: ButtonExecutor, name: &str, color: &str, state: ButtonState) -> (d:
        ButtonData)
        ensures
            d@ == (ButtonDataView {
                executor: executor.executor(),
                name: name@,
                color: color@,
                state,
            }),
    {
        ButtonData { executor, name: name.to_owned(), color: color.to_owned(), state }
    }

    pub fn get_executer(&self) -> (e: &ButtonExecutor)
        ensures
            e.executor() == self@.executor,
    {
        &self.executor
    }

    pub fn name(&self) -> (s: &str)
        ensures
            s@ == self@.name,
    {
        self.name.as_str()
    }

    pub fn color(&self) -> (s: &str)
        ensures
            s@ == self@.color,
    {
        self.color.as_str()
    }

    pub fn state(&self) -> (s: ButtonState)
        ensures
            s == self@.state,
    {
        self.state
    }

    /// A copy with the same view.
    pub fn duplicate(&self) -> (d: ButtonData)
        ensures
            d@ == self@,
    {
        ButtonData {
            executor: self.executor,
            name: self.name.clone(),
            color: self.color.clone(),
            state: self.state,
        }
    }
}

impl PartialEq for ButtonData {
    fn eq(&self, other: &ButtonData) -> (equal: bool) {
        let equal = self.executor.get() == other.executor.get() && self.name == other.name && self.color
            == other.color && self.state == other.state;
        proof {
            if equal {
                assert(self@.name =~= other@.name);
                assert(self@.color =~= other@.color);
            }
        }
        equal
    }
}

impl PartialEqSpecImpl for ButtonData {
    open spec fn obeys_eq_spec() -> bool {
        true
    }

    open spec fn eq_spec(&self, other: &ButtonData) -> bool {
        self@ == other@
    }
}

/// What the console reports of one fader.
///
/// The level is kept as the bit pattern of an IEEE-754 double, so that two
/// reports can be compared without floating-point arithmetic.
#[derive(Debug, Clone)]
pub struct FaderData {
    executor: FaderExecutor,
    name: String,
    color: String,
    value: u64,
    touched: bool,
    button1: ButtonState,
    button2: ButtonState,
    button3: ButtonState,
}

/// A [`FaderData`] as a mathematical value.
pub struct FaderDataView {
    pub executor: Executor,
    pub name: Seq<char>,
    pub color: Seq<char>,
    pub value: u64,
    pub touched: bool,
    pub button1: ButtonState,
    pub button2: ButtonState,
    pub button3: ButtonState,
}

impl View for FaderData {
    type V = FaderDataView;

    closed spec fn view(&self) -> FaderDataView {
        FaderDataView {
            executor: self.executor.executor(),
            name: self.name@,
            color: self.color@,
            value: self.value,
            touched: self.touched,
            button1: self.button1,
            button2: self.button2,
            button3: self.button3,
        }
    }
}

impl FaderData {
    pub fn new(
        executor: FaderExecutor,
        name: &str,
        color: &str,
        value: u64,
        touched: bool,
        button1: ButtonState,
        button2: ButtonState,
        button3: ButtonState,
    ) -> (d: FaderData)
        ensures
            d@ == (FaderDataView {
                executor: executor.executor(),
                name: name@,
                color: color@,
                value,
                touched,
                button1,
                button2,
                button3,
            }),
    {
        FaderData {
            executor,
            name: name.to_owned(),
            color: color.to_owned(),
            value,
            touched,
            button1,
            button2,
            button3,
        }
    }

    pub fn get_executer(&self) -> (e: &FaderExecutor)
        ensures
            e.executor() == self@.executor,
    {
        &self.executor
    }

    pub fn name(&self) -> (s: &str)
        ensures
            s@ == self@.name,
    {
        self.name.as_str()
    }

    pub fn color(&self) -> (s: &str)
        ensures
            s@ == self@.color,
    {
        self.color.as_str()
    }

    /// The level, as the bits of a double between 0 and 1.
    pub fn value(&self) -> (v: u64)
        ensures
            v == self@.value,
    {
        self.value
    }

    pub fn touched(&self) -> (t: bool)
        ensures
            t == self@.touched,
    {
        self.touched
    }

    /// The states of the three buttons that belong to the fader.
    pub fn buttons(&self) -> (b: (ButtonState, ButtonState, ButtonState))
        ensures
            b == (self@.button1, self@.button2, self@.button3),
    {
        (self.button1, self.button2, self.button3)
    }

    /// A copy with the same view.
    pub fn duplicate(&self) -> (d: FaderData)
        ensures
            d@ == self@,
    {
        FaderData {
            executor: self.executor,
            name: self.name.clone(),
            color: self.color.clone(),
            value: self.value,
            touched: self.touched,
            button1: self.button1,
            button2: self.button2,
            button3: self.button3,
        }
    }
}

impl PartialEq for FaderData {
    fn eq(&self, other: &FaderData) -> (equal: bool) {
        let equal = self.executor.get() == other.executor.get() && self.name == other.name && self.color
            == other.color && self.value == other.value && self.touched == other.touched
            && self.button1 == other.button1 && self.button2 == other.button2 && self.button3
            == other.button3;
        proof {
            if equal {
                assert(self@.name =~= other@.name);
                assert(self@.color =~= other@.color);
            }
        }
        equal
    }
}

impl PartialEqSpecImpl for FaderData {
    open spec fn obeys_eq_spec() -> bool {
        true
    }

    open spec fn eq_spec(&self, other: &FaderData) -> bool {
        self@ == other@
    }
}

/// The views of a run of fader reports.
pub open spec fn fader_views(faders: Seq<FaderData>) -> Seq<FaderDataView> {
    faders.map_values(|f: FaderData| f@)
}

/// The views of a run of button reports.
pub open spec fn button_views(buttons: Seq<ButtonData>) -> Seq<ButtonDataView> {
    buttons.map_values(|b: ButtonData| b@)
}

/// One snapshot of the console: the faders and buttons of a reply.
#[derive(Debug, Clone)]
pub struct Ma2Data {
    pub fader_data: Vec<FaderData>,
    pub button_data: Vec<ButtonData>,
}

/// A [`Ma2Data`] as a mathematical value.
pub struct Ma2DataView {
    pub faders: Seq<FaderDataView>,
    pub buttons: Seq<ButtonDataView>,
}

impl View for Ma2Data {
    type V = Ma2DataView;

    open spec fn view(&self) -> Ma2DataView {
        Ma2DataView {
            faders: fader_views(self.fader_data@),
            buttons: button_views(self.button_data@),
        }
    }
}

impl Ma2Data {
    pub fn new(fader_data: Vec<FaderData>, button_data: Vec<ButtonData>) -> (d: Ma2Data)
        ensures
            d.fader_data == fader_data,
            d.button_data == button_data,
    {
        Ma2Data { fader_data, button_data }
    }

    pub fn faders(&self) -> (f: &Vec<FaderData>)
        ensures
            *f == self.fader_data,
    {
        &self.fader_data
    }

    pub fn buttons(&self) -> (b: &Vec<ButtonData>)
        ensures
            *b == self.button_data,
    {
        &self.button_data
    }
}

impl PartialEq for Ma2Data {
    fn eq(&self, other: &Ma2Data) -> (equal: bool) {
        if self.fader_data.len() != other.fader_data.len() || self.button_data.len()
            != other.button_data.len() {
            assert(self@.faders.len() != other@.faders.len() || self@.buttons.len()
                != other@.buttons.len());
            return false;
        }
        let mut i: usize = 0;
        while i < self.fader_data.len()
            invariant
                i <= self.fader_data.len(),
                self.fader_data.len() == other.fader_data.len(),
                forall|k: int| 0 <= k < i ==> self.fader_data[k]@ == other.fader_data[k]@,
            decreases self.fader_data.len() - i,
        {
            if !self.fader_data[i].eq(&other.fader_data[i]) {
                assert(self@.faders[i as int] != other@.faders[i as int]);
                return false;
            }
            i += 1;
        }
        let mut j: usize = 0;
        while j < self.button_data.len()
            invariant
                j <= self.button_data.len(),
                self.button_data.len() == other.button_data.len(),
                forall|k: int| 0 <= k < j ==> self.button_data[k]@ == other.button_data[k]@,
            decreases self.button_data.len() - j,
        {
            if !self.button_data[j].eq(&other.button_data[j]) {
                assert(self@.buttons[j as int] != other@.buttons[j as int]);
                return false;
            }
            j += 1;
        }
        assert(self@.faders =~= other@.faders);
        assert(self@.buttons =~= other@.buttons);
        true
    }
}

impl PartialEqSpecImpl for Ma2Data {
    open spec fn obeys_eq_spec() -> bool {
        true
    }

    open spec fn eq_spec(&self, other: &Ma2Data) -> bool {
        self@ == other@
    }
}

} // verus!
