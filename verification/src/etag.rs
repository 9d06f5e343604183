//! Entity tags.

use crate::text::push_char;
use vstd::prelude::*;
use vstd::string::StringExecFns;

verus! {

/// An entity tag, weak or strong.
#[derive(Clone, Debug, PartialEq, Eq)]
pub enum ETag {
    Weak(String),
    Strong(String),
}

/// What an entity tag holds.
pub enum ETagView {
    Weak(Seq<char>),
    Strong(Seq<char>),
}

impl View for ETag {
    type V = ETagView;

    open spec fn view(&self) -> ETagView {
        match self {
            ETag::Weak(tag) => ETagView::Weak(tag@),
            ETag::Strong(tag) => ETagView::Strong(tag@),
        }
    }
}

/// The header value of an entity tag: the tag between double quotes, after
/// `W/` where it is weak.
pub open spec fn etag_text(tag: ETagView) -> Seq<char> {
    match tag {
        ETagView::Weak(t) => seq!['W', '/', '"'] + t + seq!['"'],
        ETagView::Strong(t) => seq!['"'] + t + seq!['"'],
    }
}

impl ETag {
    /// The header value of the tag.
    pub fn to_string(&self) -> (s: String)
        ensures
            s@ == etag_text(self@),
    {
        let mut s = String::new();
        match self {
            ETag::Weak(tag) => {
                push_char(&mut s, 'W');
                push_char(&mut s, '/');
                push_char(&mut s, '"');
                s.append(tag.as_str());
                push_char(&mut s, '"');
                assert(s@ =~= etag_text(self@));
            },
            ETag::Strong(tag) => {
                push_char(&mut s, '"');
                s.append(tag.as_str());
                push_char(&mut s, '"');
                assert(s@ =~= etag_text(self@));
            },
        }
        s
    }
}

} // verus!
