//! Where a photo's comment is placed.

use crate::text::same_text;
use vstd::prelude::*;

verus! {

/// Where a photo's comment is placed.
#[derive(PartialEq, Eq, Clone, Copy, Debug, Structural)]
pub enum CommentPosition {
    Top,
    Center,
    Bottom,
}

/// The name of a position, as it is stored and sent.
pub open spec fn position_text(position: CommentPosition) -> Seq<char> {
    match position {
        CommentPosition::Top => "top"@,
        CommentPosition::Center => "center"@,
        CommentPosition::Bottom => "bottom"@,
    }
}

/// The position that a name stands for.
pub open spec fn position_named(text: Seq<char>) -> Option<CommentPosition> {
    if text == "top"@ {
        Some(CommentPosition::Top)
    } else if text == "center"@ {
        Some(CommentPosition::Center)
    } else if text == "bottom"@ {
        Some(CommentPosition::Bottom)
    } else {
        None
    }
}

impl CommentPosition {
    /// The name of the position.
    pub fn as_str(&self) -> (name: &'static str)
        ensures
            name@ == position_text(*self),
    {
        match self {
            CommentPosition::Top => "top",
            CommentPosition::Center => "center",
            CommentPosition::Bottom => "bottom",
        }
    }

    /// The position that a name stands for.
    pub fn from_text(text: &str) -> (r: Option<CommentPosition>)
        ensures
            r == position_named(text@),
    {
        if same_text(text, "top") {
            Some(CommentPosition::Top)
        } else if same_text(text, "center") {
            Some(CommentPosition::Center)
        } else if same_text(text, "bottom") {
            Some(CommentPosition::Bottom)
        } else {
            None
        }
    }
}

/// A position is read back from its name.
pub proof fn lemma_position_roundtrip(position: CommentPosition)
    ensures
        position_named(position_text(position)) == Some(position),
{
    reveal_strlit("top");
    reveal_strlit("center");
    reveal_strlit("bottom");
    assert("top"@.len() != "center"@.len());
    assert("top"@.len() != "bottom"@.len());
    assert("center"@[0] != "bottom"@[0]);
}

} // verus!
