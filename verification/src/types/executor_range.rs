//! Runs of executors of one kind.

use vstd::prelude::*;

use super::executor::{ButtonExecutor, Executor, FaderExecutor};
use crate::error::{Ma2Error, Ma2ErrorView};

verus! {

/// Whether the span from `first` to `last` has a count: either `first`
/// comes after `last`, or its id is not the higher one.
pub open spec fn span_counts(first: Executor, last: Executor) -> bool {
    first.not_after(last) ==> first.id <= last.id
}

/// A run of buttons that the client polls.
#[derive(Debug, Clone, Copy)]
pub struct ButtonRange {
    pub start_button: ButtonExecutor,
    pub num_buttons: u16,
}

impl ButtonRange {
    /// The range from `button1` up to and including `button2`.
    pub fn from(button1: ButtonExecutor, button2: ButtonExecutor) -> (r: Result<
        ButtonRange,
        Box<Ma2Error>,
    >)
        requires
            span_counts(button1.executor(), button2.executor()),
        ensures
            r is Ok <==> button1.executor().not_after(button2.executor()),
            r matches Ok(range) ==> range.start_button == button1 && range.num_buttons
                == button2.executor().id - button1.executor().id + 1,
            r matches Err(e) ==> e@ == Ma2ErrorView::InvalidButtonRange(button1, button2),
    {
        if button2.get().precedes(&button1.get()) {
            return Err(Box::new(Ma2Error::InvalidButtonRange(button1, button2)));
        }
        let num_buttons: u16 = button2.id() - button1.id() + 1;
        Ok(ButtonRange { start_button: button1, num_buttons })
    }
}

/// A run of faders that the client polls.
#[derive(Debug, Clone, Copy)]
pub struct FaderRange {
    pub start_fader: FaderExecutor,
    pub num_faders: u16,
}

impl FaderRange {
    /// The range from `fader1` up to and including `fader2`.
    pub fn from(fader1: FaderExecutor, fader2: FaderExecutor) -> (r: Result<
        FaderRange,
        Box<Ma2Error>,
    >)
        requires
            span_counts(fader1.executor(), fader2.executor()),
        ensures
            r is Ok <==> fader1.executor().not_after(fader2.executor()),
            r matches Ok(range) ==> range.start_fader == fader1 && range.num_faders
                == fader2.executor().id - fader1.executor().id + 1,
            r matches Err(e) ==> e@ == Ma2ErrorView::InvalidFaderRange(fader1, fader2),
    {
        if fader2.get().precedes(&fader1.get()) {
            return Err(Box::new(Ma2Error::InvalidFaderRange(fader1, fader2)));
        }
        let num_faders: u16 = fader2.id() - fader1.id() + 1;
        Ok(FaderRange { start_fader: fader1, num_faders })
    }
}

} // verus!
