use vstd::prelude::*;
use vstd::string::StrSliceExecFns;

use crate::error::SystemError;

verus! {

/// The longest `description` a position may carry, in units of its text.
pub const MAX_DESCRIPTION_LEN: usize = 20;

/// The mathematical value of a [`Position`]: its coordinates as unbounded
/// integers and its description as a sequence of characters.
pub ghost struct PositionView {
    pub x: int,
    pub y: int,
    pub z: int,
    pub description: Seq<char>,
}

/// A position component: three coordinates and a short free-text label.
/// A pure data holder whose one invariant is the bound on `description`,
/// stated by [`Position::wf`].
#[derive(Debug, PartialEq, Eq)]
pub struct Position {
    pub x: i64,
    pub y: i64,
    pub z: i64,
    pub description: String,
}

impl View for Position {
    type V = PositionView;

    open spec fn view(&self) -> PositionView {
        PositionView {
            x: self.x as int,
            y: self.y as int,
            z: self.z as int,
            description: self.description@,
        }
    }
}

impl Position {
    /// The shape invariant: the description never exceeds
    /// [`MAX_DESCRIPTION_LEN`] units. Constructors establish it and systems
    /// preserve it.
    pub open spec fn wf(&self) -> bool {
        self@.description.len() <= MAX_DESCRIPTION_LEN
    }

    /// Replaces the description, rejecting any text over
    /// [`MAX_DESCRIPTION_LEN`] units with a `ValidationError`. The violation
    /// is detected before commit: on failure the position is unchanged.
    pub fn set_description(&mut self, description: String) -> (r: Result<(), SystemError>)
        ensures
            r is Ok <==> description@.len() <= MAX_DESCRIPTION_LEN,
            r is Ok ==> final(self)@ == (PositionView {
                description: description@,
                ..old(self)@
            }),
            r is Ok ==> final(self).wf(),
            r is Err ==> *final(self) == *old(self) && r == Err::<(), SystemError>(
                SystemError::ValidationError,
            ),
    {
        if description.as_str().unicode_len() <= MAX_DESCRIPTION_LEN {
            self.description = description;
            Ok(())
        } else {
            Err(SystemError::ValidationError)
        }
    }
}

impl Default for Position {
    /// A freshly created position sits at the origin with an empty
    /// description.
    fn default() -> (p: Position)
        ensures
            p@ == (PositionView { x: 0, y: 0, z: 0, description: Seq::<char>::empty() }),
            p.wf(),
    {
        Position { x: 0, y: 0, z: 0, description: String::new() }
    }
}

} // verus!
