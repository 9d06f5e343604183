//! The capability guard: a provider says whether the subject of a request
//! holds a capability, and only with the capability in hand is the consumer
//! asked for the resource.

use crate::auth::claims_consumer::ClaimsConsumer;
use crate::auth::{claims_view, AuthPhase, Claims, ClaimsView};
use crate::resource::{
    html_type, single, text_html, Error, ErrorView, Get, Page, PageView, Post, Renderer,
    RendererView, Resource, Response, ResponseView, Status, StatusView,
};
use vstd::prelude::*;
use vstd::string::StringExecFns;

verus! {

/// The answer to a request that lacks the capability: status 401, with the
/// login prompt for the path that was asked for.
pub open spec fn not_authorized_response(
    title: Seq<char>,
    claims: Option<ClaimsView>,
    self_url: Seq<char>,
) -> ResponseView {
    single(
        StatusView::Unauthorized,
        text_html(),
        RendererView::Page(PageView::NotAuthorized { title, claims, self_url }),
    )
}

/// The answer to a request that lacks the capability.
pub fn not_authorized(title: &str, claims: Option<Claims>, self_url: &str) -> (r: Response)
    ensures
        r@ == not_authorized_response(title@, claims_view(claims), self_url@),
{
    Response::single(
        Status::Unauthorized,
        html_type(),
        Renderer::Page(
            Page::NotAuthorized {
                title: String::from_str(title),
                claims,
                self_url: String::from_str(self_url),
            },
        ),
    )
}

/// What says whether a subject holds a capability.
pub trait Provider {
    type Authorization;

    fn get_authorization(&self, sub: &str) -> Result<Option<Self::Authorization>, Error>;
}

/// What makes the resource for who holds the capability.
pub trait Consumer: Sized {
    type Authorization;

    type Get: Get;

    type Post: Post;

    fn authorization(self, authorization: Self::Authorization) -> Result<
        Resource<Self::Get, Self::Post>,
        Error,
    >;
}

/// The subject that a provider is asked about: that of claims of the phase
/// `LoggedIn`. Without such claims no provider is asked.
pub open spec fn subject_of(claims: Option<ClaimsView>) -> Option<Seq<char>> {
    match claims {
        Some(c) => if c.phase == AuthPhase::LoggedIn {
            Some(c.sub)
        } else {
            None
        },
        None => None,
    }
}

/// The subject that a provider is asked about.
pub fn authorization_subject(claims: &Option<Claims>) -> (r: Option<&str>)
    ensures
        crate::assembly::text_view(r) == subject_of(claims_view(*claims)),
{
    match claims {
        Some(c) => match c.phase {
            AuthPhase::LoggedIn => Some(c.sub.as_str()),
            AuthPhase::Validation => None,
        },
        None => None,
    }
}

/// The guard before a family of resources.
pub struct Authorizer<P: Provider, C: Consumer<Authorization = P::Authorization>> {
    title: String,
    provider: P,
    consumer: C,
    self_url: String,
}

impl<P: Provider, C: Consumer<Authorization = P::Authorization>> Authorizer<P, C> {
    pub fn new(title: String, self_url: String, provider: P, consumer: C) -> (r: Self)
        ensures
            r.title() == title@,
            r.self_url() == self_url@,
            r.provider() == provider,
            r.consumer() == consumer,
    {
        Authorizer { title, provider, consumer, self_url }
    }

    /// The site's title.
    pub closed spec fn title(self) -> Seq<char> {
        self.title@
    }

    /// The path that the guard stands before.
    pub closed spec fn self_url(self) -> Seq<char> {
        self.self_url@
    }

    /// The provider that is asked.
    pub closed spec fn provider(self) -> P {
        self.provider
    }

    /// The consumer that makes the resource.
    pub closed spec fn consumer(self) -> C {
        self.consumer
    }

    /// Asks the provider about the subject of the claims. Without claims of
    /// the phase `LoggedIn` the provider is not asked, and there is no
    /// capability.
    pub fn get_authorization(&self, claims: &Option<Claims>) -> (r: Result<
        Option<P::Authorization>,
        Error,
    >)
        ensures
            match subject_of(claims_view(*claims)) {
                None => r matches Ok(None),
                Some(sub) => exists|asked: &str|
                    asked@ == sub && #[trigger] call_ensures(
                        P::get_authorization,
                        (&self.provider(), asked),
                        r,
                    ),
            },
    {
        match authorization_subject(claims) {
            None => Ok(None),
            Some(sub) => {
                let r = self.provider.get_authorization(sub);
                assert(call_ensures(P::get_authorization, (&self.provider(), sub), r));
                r
            },
        }
    }
}

/// What the guard answers for what the provider said: the provider's failure
/// is passed on; without a capability the answer is 401; with one, it is what
/// the consumer makes of that capability.
pub open spec fn guarded<P: Provider, C: Consumer<Authorization = P::Authorization>>(
    guard: Authorizer<P, C>,
    claims: Option<Claims>,
    said: Result<Option<P::Authorization>, Error>,
    r: Result<Resource<C::Get, C::Post>, Error>,
) -> bool {
    match said {
        Err(e) => r matches Err(f) && f == e,
        Ok(None) => r matches Err(f) && f@ == ErrorView::BlanketResponse(
            not_authorized_response(guard.title(), claims_view(claims), guard.self_url()),
        ),
        Ok(Some(capability)) => call_ensures(C::authorization, (guard.consumer(), capability), r),
    }
}

impl<P: Provider, C: Consumer<Authorization = P::Authorization>> ClaimsConsumer for Authorizer<
    P,
    C,
> {
    type Get = C::Get;

    type Post = C::Post;

    /// Lets a request through to the consumer's resource where its subject
    /// holds the capability. The consumer is asked only with a capability
    /// that the provider gave for this request, and then once.
    fn claims(self, claims: Option<Claims>) -> (r: Result<Resource<C::Get, C::Post>, Error>)
        ensures
            match subject_of(claims_view(claims)) {
                None => guarded(self, claims, Ok(None), r),
                Some(sub) => exists|asked: &str, said: Result<Option<P::Authorization>, Error>|
                    asked@ == sub && #[trigger] call_ensures(
                        P::get_authorization,
                        (&self.provider(), asked),
                        said,
                    ) && guarded(self, claims, said, r),
            },
    {
        let said = self.get_authorization(&claims);
        let Authorizer { title, provider, consumer, self_url } = self;
        match said {
            Err(e) => Err(e),
            Ok(Some(capability)) => consumer.authorization(capability),
            Ok(None) => Err(
                Error::BlanketResponse(not_authorized(title.as_str(), claims, self_url.as_str())),
            ),
        }
    }
}

} // verus!
