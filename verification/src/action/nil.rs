//! The empty action: takes no input, draws nothing, never finishes on its
//! own.

use vstd::prelude::*;
use crate::action::StatefulAction;
use crate::error::Error;

verus! {

#[derive(Debug, PartialEq, Eq, Structural)]
pub struct Nil;

impl Nil {
    pub fn new() -> (r: Self)
        ensures
            r == Nil,
    {
        Self
    }

    /// Instantiates the runtime state: not done.
    pub fn stateful(&self) -> (r: Result<StatefulAction, Error>)
        ensures
            r == Ok::<StatefulAction, Error>(StatefulAction::Nil(StatefulNil { done: false })),
    {
        Ok(StatefulAction::Nil(StatefulNil::new()))
    }
}

impl Default for Nil {
    fn default() -> (r: Self)
        ensures
            r == Nil,
    {
        Self
    }
}

#[derive(Debug, PartialEq, Eq, Structural)]
pub struct StatefulNil {
    pub done: bool,
}

impl StatefulNil {
    pub fn new() -> (r: Self)
        ensures
            r == (StatefulNil { done: false }),
    {
        Self { done: false }
    }
}

impl Default for StatefulNil {
    fn default() -> (r: Self)
        ensures
            r == (StatefulNil { done: false }),
    {
        Self::new()
    }
}

} // verus!
