//! Executors: the faders and buttons of a console page, addressed by page
//! and id.

use vstd::prelude::*;

use crate::text::{decimal, push_decimal};

verus! {

/// Highest executor id that addresses a fader.
pub const MAX_FADER_ID: u16 = 99;

/// Lowest executor id that addresses a button.
pub const MIN_BUTTON_ID: u16 = 100;

/// Highest executor id that addresses a button.
pub const MAX_BUTTON_ID: u16 = 199;

/// What an executor id addresses.
#[derive(Debug, Clone, Copy, PartialEq, Eq, Structural, Hash)]
pub enum ExecutorType {
    Invalid,
    Button,
    Fader,
}

/// The kind that an executor id stands for.
pub open spec fn kind_of_id(id: u16) -> ExecutorType {
    if id <= MAX_FADER_ID {
        ExecutorType::Fader
    } else if id <= MAX_BUTTON_ID {
        ExecutorType::Button
    } else {
        ExecutorType::Invalid
    }
}

/// The ids up to 99 address faders, those from 100 to 199 buttons, and the
/// others nothing.
pub proof fn lemma_kind_by_id(id: u16)
    ensures
        kind_of_id(id) == ExecutorType::Fader <==> id <= 99,
        kind_of_id(id) == ExecutorType::Button <==> 100 <= id <= 199,
        kind_of_id(id) == ExecutorType::Invalid <==> id >= 200,
{
}

/// One control element of the console: an id on a page.
///
/// The kind is a function of the id and is never stored. Executors are
/// ordered by page first and id second.
#[derive(Debug, Clone, Copy, PartialEq, Eq, Structural, PartialOrd, Ord, Hash)]
pub struct Executor {
    pub page: u8,
    pub id: u16,
}

impl Executor {
    /// The order of executors: by page, then by id.
    pub open spec fn before(self, other: Executor) -> bool {
        self.page < other.page || (self.page == other.page && self.id < other.id)
    }

    /// `self` comes before `other` or equals it.
    pub open spec fn not_after(self, other: Executor) -> bool {
        self.before(other) || self == other
    }

    /// The kind of this executor.
    pub open spec fn kind(self) -> ExecutorType {
        kind_of_id(self.id)
    }

    pub fn new(page: u8, id: u16) -> (e: Executor)
        ensures
            e.page == page,
            e.id == id,
    {
        Executor { page, id }
    }

    pub fn id(&self) -> (id: u16)
        ensures
            id == self.id,
    {
        self.id
    }

    pub fn page(&self) -> (page: u8)
        ensures
            page == self.page,
    {
        self.page
    }

    /// The page and the id, with a dot between them.
    pub open spec fn label(self) -> Seq<char> {
        decimal(self.page as nat) + "."@ + decimal(self.id as nat)
    }

    /// Writes the executor as its page and its id, with a dot between them.
    pub fn to_text(&self) -> (text: String)
        ensures
            text@ == self.label(),
    {
        let mut text = String::new();
        push_decimal(&mut text, self.page as u64);
        text.append(".");
        push_decimal(&mut text, self.id as u64);
        assert(text@ =~= self.label());
        text
    }

    /// Computes the kind from the id.
    pub fn typ(&self) -> (t: ExecutorType)
        ensures
            t == self.kind(),
    {
        if self.id <= MAX_FADER_ID {
            ExecutorType::Fader
        } else if self.id <= MAX_BUTTON_ID {
            ExecutorType::Button
        } else {
            ExecutorType::Invalid
        }
    }

    /// Decides the order of two executors.
    pub fn precedes(&self, other: &Executor) -> (b: bool)
        ensures
            b == self.before(*other),
    {
        self.page < other.page || (self.page == other.page && self.id < other.id)
    }

    /// The executor as a button, if its id addresses one.
    pub fn into_button(self) -> (r: Option<ButtonExecutor>)
        ensures
            r is Some <==> self.kind() == ExecutorType::Button,
            r is Some ==> r->0.executor() == self,
    {
        if self.id >= MIN_BUTTON_ID && self.id <= MAX_BUTTON_ID {
            Some(ButtonExecutor(self))
        } else {
            None
        }
    }

    /// The executor as a fader, if its id addresses one.
    pub fn into_fader(self) -> (r: Option<FaderExecutor>)
        ensures
            r is Some <==> self.kind() == ExecutorType::Fader,
            r is Some ==> r->0.executor() == self,
    {
        if self.id <= MAX_FADER_ID {
            Some(FaderExecutor(self))
        } else {
            None
        }
    }
}

/// The order of executors is total: of two executors one comes before the
/// other or they are the same, never two of these at once, and what comes
/// before an executor comes before all that it comes before.
pub proof fn lemma_order_is_total(a: Executor, b: Executor, c: Executor)
    ensures
        a.before(b) || a == b || b.before(a),
        !(a.before(b) && b.before(a)),
        !a.before(a),
        a.before(b) && b.before(c) ==> a.before(c),
{
}

/// An executor known to address a button.
#[derive(Debug, Clone, Copy, PartialEq, Eq, Structural, PartialOrd, Ord, Hash)]
pub struct ButtonExecutor(Executor);

impl ButtonExecutor {
    #[verifier::type_invariant]
    pub closed spec fn wf(self) -> bool {
        self.0.kind() == ExecutorType::Button
    }

    /// The executor underneath.
    pub closed spec fn executor(self) -> Executor {
        self.0
    }

    pub fn new(page: u8, id: u16) -> (b: ButtonExecutor)
        requires
            kind_of_id(id) == ExecutorType::Button,
        ensures
            b.executor() == (Executor { page, id }),
            b.wf(),
    {
        ButtonExecutor(Executor { page, id })
    }

    pub fn id(&self) -> (id: u16)
        ensures
            id == self.executor().id,
            MIN_BUTTON_ID <= id <= MAX_BUTTON_ID,
    {
        proof {
            use_type_invariant(self);
        }
        self.0.id
    }

    pub fn page(&self) -> (page: u8)
        ensures
            page == self.executor().page,
    {
        self.0.page
    }

    pub fn get(&self) -> (e: Executor)
        ensures
            e == self.executor(),
            e.kind() == ExecutorType::Button,
    {
        proof {
            use_type_invariant(self);
        }
        self.0
    }
}

/// An executor known to address a fader.
#[derive(Debug, Clone, Copy, PartialEq, Eq, Structural, PartialOrd, Ord, Hash)]
pub struct FaderExecutor(Executor);

impl FaderExecutor {
    #[verifier::type_invariant]
    pub closed spec fn wf(self) -> bool {
        self.0.kind() == ExecutorType::Fader
    }

    /// The executor underneath.
    pub closed spec fn executor(self) -> Executor {
        self.0
    }

    pub fn new(page: u8, id: u16) -> (f: FaderExecutor)
        requires
            kind_of_id(id) == ExecutorType::Fader,
        ensures
            f.executor() == (Executor { page, id }),
            f.wf(),
    {
        FaderExecutor(Executor { page, id })
    }

    pub fn id(&self) -> (id: u16)
        ensures
            id == self.executor().id,
            id <= MAX_FADER_ID,
    {
        proof {
            use_type_invariant(self);
        }
        self.0.id
    }

    pub fn page(&self) -> (page: u8)
        ensures
            page == self.executor().page,
    {
        self.0.page
    }

    pub fn get(&self) -> (e: Executor)
        ensures
            e == self.executor(),
            e.kind() == ExecutorType::Fader,
    {
        proof {
            use_type_invariant(self);
        }
        self.0
    }
}

} // verus!
