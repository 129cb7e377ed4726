//! The elements that the control panel shows.

use vstd::prelude::*;

verus! {

/// The pictures that the control panel can show on an element.
#[derive(Debug, Clone, Copy, PartialEq, Eq, Structural)]
pub enum Icon {
    NoIcon,
    Off,
    Sun,
    Right,
    Left,
    Rainbow,
    Chill,
    Party,
    Rave,
    LEDBars,
    Sunstrip,
    MovingHead,
    CounterFront,
    Hexagon,
    CounterBack,
    Bottles,
    Bulb,
}

/// The heading of one row of presets.
#[derive(Debug, Clone, PartialEq, Eq)]
pub struct PresetCategory {
    row: u8,
    text: String,
}

/// A [`PresetCategory`] as a mathematical value.
pub struct PresetCategoryView {
    pub row: u8,
    pub text: Seq<char>,
}

impl View for PresetCategory {
    type V = PresetCategoryView;

    closed spec fn view(&self) -> PresetCategoryView {
        PresetCategoryView { row: self.row, text: self.text@ }
    }
}

impl PresetCategory {
    pub fn new(row: u8, text: &str) -> (c: PresetCategory)
        ensures
            c@ == (PresetCategoryView { row, text: text@ }),
    {
        PresetCategory { row, text: text.to_owned() }
    }

    pub fn row(&self) -> (row: u8)
        ensures
            row == self@.row,
    {
        self.row
    }

    pub fn text(&self) -> (text: &str)
        ensures
            text@ == self@.text,
    {
        self.text.as_str()
    }
}

/// An element of the control panel as a mathematical value: its caption,
/// its place in the grid, its picture and its colour.
pub struct ElementView {
    pub text: Seq<char>,
    pub row: u8,
    pub column: u8,
    pub icon: Icon,
    pub color: Seq<char>,
}

/// A button that recalls a preset.
#[derive(Debug, Clone, PartialEq, Eq)]
pub struct PresetButton {
    text: String,
    pub row: u8,
    pub column: u8,
    icon: Icon,
    color: String,
}

impl View for PresetButton {
    type V = ElementView;

    closed spec fn view(&self) -> ElementView {
        ElementView {
            text: self.text@,
            row: self.row,
            column: self.column,
            icon: self.icon,
            color: self.color@,
        }
    }
}

impl PresetButton {
    pub fn new(text: &str, row: u8, column: u8, icon: Icon, color: &str) -> (b: PresetButton)
        ensures
            b@ == (ElementView { text: text@, row, column, icon, color: color@ }),
    {
        PresetButton { text: text.to_owned(), row, column, icon, color: color.to_owned() }
    }

    pub fn row(&self) -> (row: u8)
        ensures
            row == self@.row,
    {
        self.row
    }

    pub fn column(&self) -> (column: u8)
        ensures
            column == self@.column,
    {
        self.column
    }

    pub fn text(&self) -> (text: &str)
        ensures
            text@ == self@.text,
    {
        self.text.as_str()
    }

    pub fn icon(&self) -> (icon: Icon)
        ensures
            icon == self@.icon,
    {
        self.icon
    }

    pub fn color(&self) -> (color: &str)
        ensures
            color@ == self@.color,
    {
        self.color.as_str()
    }
}

/// An action that lasts while its button is held.
#[derive(Debug, Clone, PartialEq, Eq)]
pub struct HoldAction {
    text: String,
    row: u8,
    column: u8,
    icon: Icon,
    color: String,
}

impl View for HoldAction {
    type V = ElementView;

    closed spec fn view(&self) -> ElementView {
        ElementView {
            text: self.text@,
            row: self.row,
            column: self.column,
            icon: self.icon,
            color: self.color@,
        }
    }
}

impl HoldAction {
    pub fn new(text: &str, row: u8, column: u8, icon: Icon, color: &str) -> (a: HoldAction)
        ensures
            a@ == (ElementView { text: text@, row, column, icon, color: color@ }),
    {
        HoldAction { text: text.to_owned(), row, column, icon, color: color.to_owned() }
    }

    pub fn text(&self) -> (text: &str)
        ensures
            text@ == self@.text,
    {
        self.text.as_str()
    }

    pub fn row(&self) -> (row: u8)
        ensures
            row == self@.row,
    {
        self.row
    }

    pub fn column(&self) -> (column: u8)
        ensures
            column == self@.column,
    {
        self.column
    }

    pub fn icon(&self) -> (icon: Icon)
        ensures
            icon == self@.icon,
    {
        self.icon
    }

    pub fn color(&self) -> (color: &str)
        ensures
            color@ == self@.color,
    {
        self.color.as_str()
    }
}

/// A fader of the control panel.
#[derive(Debug, Clone, PartialEq, Eq)]
pub struct Fader {
    pub text: String,
    row: u8,
    column: u8,
    pub icon: Icon,
    pub color: String,
}

impl View for Fader {
    type V = ElementView;

    closed spec fn view(&self) -> ElementView {
        ElementView {
            text: self.text@,
            row: self.row,
            column: self.column,
            icon: self.icon,
            color: self.color@,
        }
    }
}

impl Fader {
    pub fn new(text: &str, row: u8, column: u8, icon: Icon, color: &str) -> (f: Fader)
        ensures
            f@ == (ElementView { text: text@, row, column, icon, color: color@ }),
    {
        Fader { text: text.to_owned(), row, column, icon, color: color.to_owned() }
    }

    pub fn text(&self) -> (text: &str)
        ensures
            text@ == self@.text,
    {
        self.text.as_str()
    }

    pub fn icon(&self) -> (icon: Icon)
        ensures
            icon == self@.icon,
    {
        self.icon
    }

    pub fn color(&self) -> (color: &str)
        ensures
            color@ == self@.color,
    {
        self.color.as_str()
    }

    pub fn row(&self) -> (row: u8)
        ensures
            row == self@.row,
    {
        self.row
    }

    pub fn column(&self) -> (column: u8)
        ensures
            column == self@.column,
    {
        self.column
    }
}

} // verus!
