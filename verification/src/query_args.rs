//! Arguments in the `application/x-www-form-urlencoded` format, in a query or
//! in a body, read through the `serde_urlencoded` crate.

use crate::request::{CookieHandler, QueryHandler};
use crate::resource::{Error, ErrorView};
use crate::text::same_text;
use vstd::prelude::*;
use vstd::string::StringSliceAdditionalSpecFns;

verus! {

/// The pairs of names and values that a form-encoded text is read as, where
/// `serde_urlencoded` reads it.
pub uninterp spec fn form_pairs(input: Seq<u8>) -> Option<Seq<(Seq<char>, Seq<char>)>>;

/// The form-encoded text of pairs of names and values, where
/// `serde_urlencoded` writes one.
pub uninterp spec fn form_text(pairs: Seq<(Seq<char>, Seq<char>)>) -> Option<Seq<char>>;

/// The views of the pairs of a sequence.
pub open spec fn pair_views(v: Seq<(String, String)>) -> Seq<(Seq<char>, Seq<char>)> {
    Seq::new(v.len(), |i: int| (v[i].0@, v[i].1@))
}

/// `serde_urlencoded::from_bytes`, read as a list of pairs of texts; `None`
/// stands for the crate's error.
#[verifier::external_body]
pub(crate) fn form_decode(input: &[u8]) -> (r: Option<Vec<(String, String)>>)
    ensures
        match r {
            Some(pairs) => form_pairs(input@) == Some(pair_views(pairs@)),
            None => form_pairs(input@) is None,
        },
{
    serde_urlencoded::from_bytes::<Vec<(String, String)>>(input).ok()
}

/// `serde_urlencoded::to_string` on a list of pairs of texts; `None` stands
/// for the crate's error.
#[verifier::external_body]
pub(crate) fn form_encode(pairs: &Vec<(String, String)>) -> (r: Option<String>)
    ensures
        match r {
            Some(text) => form_text(pair_views(pairs@)) == Some(text@),
            None => form_text(pair_views(pairs@)) is None,
        },
{
    serde_urlencoded::to_string(pairs).ok()
}

/// How many of the first `k` pairs are named `name`.
pub open spec fn count_named(pairs: Seq<(Seq<char>, Seq<char>)>, name: Seq<char>, k: int) -> int
    decreases k,
{
    if k <= 0 {
        0
    } else {
        count_named(pairs, name, k - 1) + (if pairs[k - 1].0 == name {
            1int
        } else {
            0int
        })
    }
}

/// The first position at or after `from` of a pair named `name`, or the
/// number of pairs.
pub open spec fn first_named(pairs: Seq<(Seq<char>, Seq<char>)>, name: Seq<char>, from: int) -> int
    decreases pairs.len() - from,
{
    if from < 0 || from >= pairs.len() {
        pairs.len() as int
    } else if pairs[from].0 == name {
        from
    } else {
        first_named(pairs, name, from + 1)
    }
}

/// The value of the field `name`: that of the one pair of that name. A name
/// that is missing, or given twice, has no value.
pub open spec fn field(pairs: Seq<(Seq<char>, Seq<char>)>, name: Seq<char>) -> Option<Seq<char>> {
    if count_named(pairs, name, pairs.len() as int) == 1 {
        Some(pairs[first_named(pairs, name, 0)].1)
    } else {
        None
    }
}

/// The view of a text that may be absent.
pub open spec fn owned_view(text: Option<String>) -> Option<Seq<char>> {
    match text {
        Some(t) => Some(t@),
        None => None,
    }
}

/// The value of the field `name` among `pairs`.
pub fn field_of(pairs: &Vec<(String, String)>, name: &str) -> (r: Option<String>)
    ensures
        owned_view(r) == field(pair_views(pairs@), name@),
{
    let ghost views = pair_views(pairs@);
    let mut count: usize = 0;
    let mut found: Option<String> = None;
    let mut i: usize = 0;
    while i < pairs.len()
        invariant
            i <= pairs@.len(),
            views == pair_views(pairs@),
            count <= i,
            count == count_named(views, name@, i as int),
            count == 0 ==> found is None && first_named(views, name@, 0) == first_named(
                views,
                name@,
                i as int,
            ),
            count >= 1 ==> found is Some && 0 <= first_named(views, name@, 0) < i && found->0@
                == views[first_named(views, name@, 0)].1,
        decreases pairs@.len() - i,
    {
        assert(views[i as int].0 == pairs@[i as int].0@);
        if same_text(pairs[i].0.as_str(), name) {
            if count == 0 {
                found = Some(pairs[i].1.clone());
            }
            count += 1;
        }
        i += 1;
    }
    if count == 1 {
        found
    } else {
        None
    }
}

/// Arguments that are made from pairs of names and values.
pub trait FromPairs: Sized {
    /// The arguments that the pairs hold, where they hold them.
    fn from_pairs(pairs: &Vec<(String, String)>) -> Option<Self>;
}

/// What is handed the arguments of a query and makes the cookie handler.
pub trait QueryArgsConsumer: Sized {
    type Args: FromPairs;

    type Handler: CookieHandler;

    fn args(self, args: Self::Args) -> Result<Self::Handler, Error>;
}

/// A query handler that reads the query as form-encoded arguments and hands
/// them to its consumer.
pub struct QueryArgsParser<Consumer: QueryArgsConsumer> {
    consumer: Consumer,
}

impl<Consumer: QueryArgsConsumer> QueryArgsParser<Consumer> {
    pub fn new(consumer: Consumer) -> (r: QueryArgsParser<Consumer>)
        ensures
            r.consumer() == consumer,
    {
        QueryArgsParser { consumer }
    }

    /// The consumer that the arguments are handed to.
    pub closed spec fn consumer(self) -> Consumer {
        self.consumer
    }
}

/// The bytes of a query; an absent query counts as an empty one.
pub open spec fn query_bytes(query: Option<&str>) -> Seq<u8> {
    match query {
        Some(q) => q.spec_bytes(),
        None => "".spec_bytes(),
    }
}

impl<Consumer: QueryArgsConsumer> QueryHandler for QueryArgsParser<Consumer> {
    type Handler = Consumer::Handler;

    /// Reads the query and hands its arguments on. A query that is not
    /// form-encoded, or does not hold the arguments, is a bad request.
    fn query(self, query: Option<&str>) -> (r: Result<Consumer::Handler, Error>)
        ensures
            form_pairs(query_bytes(query)) is None ==> (r matches Err(e) && e@
                == ErrorView::BadRequest),
            form_pairs(query_bytes(query)) matches Some(pairs) ==> exists|
                given: Vec<(String, String)>,
                parsed: Option<Consumer::Args>,
            |
                pair_views(given@) == pairs && call_ensures(
                    Consumer::Args::from_pairs,
                    (&given,),
                    parsed,
                ) && match parsed {
                    Some(args) => call_ensures(Consumer::args, (self.consumer(), args), r),
                    None => r matches Err(e) && e@ == ErrorView::BadRequest,
                },
    {
        let text: &str = match query {
            Some(q) => q,
            None => "",
        };
        let pairs = match form_decode(text.as_bytes()) {
            Some(pairs) => pairs,
            None => {
                return Err(Error::BadRequest);
            },
        };
        let parsed = Consumer::Args::from_pairs(&pairs);
        match parsed {
            Some(args) => self.consumer.args(args),
            None => Err(Error::BadRequest),
        }
    }
}

} // verus!
