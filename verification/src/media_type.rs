//! Media types: a category, a subtype and arguments.

use crate::text::{chars_of, find, find_first, push_char, string_of, sub_vec, texts};
use vstd::prelude::*;
use vstd::string::StringExecFns;

verus! {

/// A media type such as `text/html;charset=utf-8`.
#[derive(Clone, Debug, PartialEq, Eq)]
pub struct MediaType {
    pub type_category: String,
    pub subtype: String,
    pub args: Vec<String>,
}

/// What a media type holds.
pub struct MediaTypeView {
    pub type_category: Seq<char>,
    pub subtype: Seq<char>,
    pub args: Seq<Seq<char>>,
}

impl View for MediaType {
    type V = MediaTypeView;

    open spec fn view(&self) -> MediaTypeView {
        MediaTypeView {
            type_category: self.type_category@,
            subtype: self.subtype@,
            args: texts(self.args@),
        }
    }
}

/// The arguments as they are written behind the subtype: the first after a
/// semicolon, each further one after an ampersand.
pub open spec fn args_text(args: Seq<Seq<char>>) -> Seq<char>
    decreases args.len(),
{
    if args.len() == 0 {
        Seq::<char>::empty()
    } else if args.len() == 1 {
        seq![';'] + args[0]
    } else {
        args_text(args.drop_last()) + seq!['&'] + args.last()
    }
}

/// The category, a slash and the subtype.
pub open spec fn essence(mt: MediaTypeView) -> Seq<char> {
    mt.type_category + seq!['/'] + mt.subtype
}

/// The media type as it is written in a header.
pub open spec fn media_type_text(mt: MediaTypeView) -> Seq<char> {
    essence(mt) + args_text(mt.args)
}

/// The media type that `src` is parsed as: the category is what stands before
/// the first slash, the subtype all that follows it.
pub open spec fn parsed_media_type(src: Seq<char>) -> MediaTypeView {
    let i = find_first(src, seq!['/']);
    MediaTypeView {
        type_category: src.take(i),
        subtype: src.skip(i + 1),
        args: Seq::<Seq<char>>::empty(),
    }
}

impl MediaType {
    /// A media type of the given parts.
    pub fn new(type_category: &str, subtype: &str, args: Vec<String>) -> (mt: MediaType)
        ensures
            mt@.type_category == type_category@,
            mt@.subtype == subtype@,
            mt@.args == texts(args@),
            mt.args == args,
    {
        MediaType {
            type_category: String::from_str(type_category),
            subtype: String::from_str(subtype),
            args,
        }
    }

    /// Parses a category and a subtype, parted by the first slash.
    pub fn parse(src: &str) -> (mt: MediaType)
        requires
            src@.contains('/'),
        ensures
            mt@ == parsed_media_type(src@),
    {
        let chars = chars_of(src);
        let mut slash: Vec<char> = Vec::new();
        slash.push('/');
        assert(slash@ =~= seq!['/']);
        match find(&chars, &slash) {
            Some(i) => {
                let end: usize = chars.len();
                let category = sub_vec(&chars, 0, i);
                let subtype = sub_vec(&chars, i + 1, end);
                let mt = MediaType {
                    type_category: string_of(&category),
                    subtype: string_of(&subtype),
                    args: Vec::new(),
                };
                assert(mt@.type_category =~= src@.take(i as int));
                assert(mt@.subtype =~= src@.skip(i + 1));
                assert(mt@.args =~= Seq::<Seq<char>>::empty());
                mt
            },
            None => {
                proof {
                    let k = choose|k: int| 0 <= k < src@.len() && src@[k] == '/';
                    crate::text::lemma_find_from(src@, seq!['/'], 0);
                    assert(src@.subrange(k, k + 1) =~= seq!['/']);
                    assert(crate::text::occurs_at(src@, seq!['/'], k));
                    assert(false);
                }
                MediaType { type_category: String::new(), subtype: String::new(), args: Vec::new() }
            },
        }
    }

    /// The media type as it is written in a header.
    pub fn to_string(&self) -> (s: String)
        ensures
            s@ == media_type_text(self@),
    {
        let mut s = String::new();
        s.append(self.type_category.as_str());
        push_char(&mut s, '/');
        s.append(self.subtype.as_str());
        assert(s@ =~= essence(self@));
        let mut i: usize = 0;
        while i < self.args.len()
            invariant
                i <= self.args@.len(),
                s@ == essence(self@) + args_text(texts(self.args@).take(i as int)),
            decreases self.args@.len() - i,
        {
            if i == 0 {
                push_char(&mut s, ';');
            } else {
                push_char(&mut s, '&');
            }
            s.append(self.args[i].as_str());
            proof {
                let all = texts(self.args@);
                let done = all.take(i + 1);
                assert(done.drop_last() =~= all.take(i as int));
                assert(done.last() == self.args@[i as int]@);
                if i == 0 {
                    assert(done[0] == self.args@[0]@);
                    assert(args_text(all.take(0)) =~= Seq::<char>::empty());
                }
                assert(s@ =~= essence(self@) + args_text(done));
            }
            i += 1;
        }
        assert(texts(self.args@).take(self.args@.len() as int) =~= texts(self.args@));
        s
    }
}

} // verus!
