//! The `Cache-Control` directives that a resource may ask for.

use vstd::prelude::*;
use vstd::string::StringExecFns;

verus! {

#[derive(Clone, Copy, Debug, PartialEq, Eq, Structural)]
pub enum CacheabilityPolicy {
    AllowCaching,
    /// User-agent must revalidate before using cached response
    NoCache,
    NoStore,
}

impl Default for CacheabilityPolicy {
    fn default() -> (r: Self)
        ensures
            r == CacheabilityPolicy::AllowCaching,
    {
        CacheabilityPolicy::AllowCaching
    }
}

#[derive(Clone, Copy, Debug, PartialEq, Eq, Structural)]
pub struct Cacheability {
    pub private: bool,
    pub policy: CacheabilityPolicy,
}

impl Default for Cacheability {
    fn default() -> (r: Self)
        ensures
            r == (Cacheability { private: true, policy: CacheabilityPolicy::AllowCaching }),
    {
        Cacheability { private: true, policy: CacheabilityPolicy::AllowCaching }
    }
}

#[derive(Clone, Copy, Debug, PartialEq, Eq, Structural)]
pub struct Revalidation {
    pub must_revalidate: bool,
    pub proxy_revalidate: bool,
    pub immutable: bool,
}

impl Default for Revalidation {
    fn default() -> (r: Self)
        ensures
            r == (Revalidation {
                must_revalidate: false,
                proxy_revalidate: false,
                immutable: false,
            }),
    {
        Revalidation { must_revalidate: false, proxy_revalidate: false, immutable: false }
    }
}

#[derive(Clone, Copy, Debug, PartialEq, Eq, Structural)]
pub struct CacheControl {
    pub cacheability: Cacheability,
    pub revalidation: Revalidation,
}

impl Default for CacheControl {
    fn default() -> (r: Self)
        ensures
            r == (CacheControl {
                cacheability: Cacheability {
                    private: true,
                    policy: CacheabilityPolicy::AllowCaching,
                },
                revalidation: Revalidation {
                    must_revalidate: false,
                    proxy_revalidate: false,
                    immutable: false,
                },
            }),
    {
        CacheControl {
            cacheability: Cacheability { private: true, policy: CacheabilityPolicy::AllowCaching },
            revalidation: Revalidation {
                must_revalidate: false,
                proxy_revalidate: false,
                immutable: false,
            },
        }
    }
}

/// The header value of a directive set: `private` or `public`; then, each
/// after a comma and a space, `no-cache` or `no-store`, `must-revalidate`,
/// `proxy-revalidate`, and for an immutable resource a year's `max-age` and
/// `immutable`.
pub open spec fn cache_control_text(cc: CacheControl) -> Seq<char> {
    (if cc.cacheability.private {
        "private"@
    } else {
        "public"@
    }) + (match cc.cacheability.policy {
        CacheabilityPolicy::AllowCaching => Seq::<char>::empty(),
        CacheabilityPolicy::NoCache => ", no-cache"@,
        CacheabilityPolicy::NoStore => ", no-store"@,
    }) + (if cc.revalidation.must_revalidate {
        ", must-revalidate"@
    } else {
        Seq::<char>::empty()
    }) + (if cc.revalidation.proxy_revalidate {
        ", proxy-revalidate"@
    } else {
        Seq::<char>::empty()
    }) + (if cc.revalidation.immutable {
        ", max-age=31536000, immutable"@
    } else {
        Seq::<char>::empty()
    })
}

impl CacheControl {
    /// The header value of the directive set.
    pub fn to_string(&self) -> (s: String)
        ensures
            s@ == cache_control_text(*self),
    {
        let mut s = String::new();
        if self.cacheability.private {
            s.append("private");
        } else {
            s.append("public");
        }
        match self.cacheability.policy {
            CacheabilityPolicy::AllowCaching => (),
            CacheabilityPolicy::NoCache => s.append(", no-cache"),
            CacheabilityPolicy::NoStore => s.append(", no-store"),
        };
        if self.revalidation.must_revalidate {
            s.append(", must-revalidate");
        }
        if self.revalidation.proxy_revalidate {
            s.append(", proxy-revalidate");
        }
        if self.revalidation.immutable {
            s.append(", max-age=31536000, immutable");
        }
        assert(s@ =~= cache_control_text(*self));
        s
    }
}

/// The directives of a stored picture: for its user alone, and never to
/// be asked for again.
pub fn immutable() -> (cc: CacheControl)
    ensures
        cc == (CacheControl {
            cacheability: Cacheability { private: true, policy: CacheabilityPolicy::AllowCaching },
            revalidation: Revalidation {
                must_revalidate: false,
                proxy_revalidate: false,
                immutable: true,
            },
        }),
        cache_control_text(cc) == "private"@ + ", max-age=31536000, immutable"@,
{
    let cc = CacheControl {
        cacheability: Cacheability { private: true, policy: CacheabilityPolicy::AllowCaching },
        revalidation: Revalidation {
            must_revalidate: false,
            proxy_revalidate: false,
            immutable: true,
        },
    };
    assert(cache_control_text(cc) =~= "private"@ + ", max-age=31536000, immutable"@);
    cc
}

/// An immutable resource is cached for a year: its header value ends with
/// the `max-age` of 31536000 seconds and `immutable`.
pub proof fn lemma_immutable_implies_max_age(cc: CacheControl)
    requires
        cc.revalidation.immutable,
    ensures
        cache_control_text(cc) == cache_control_text(
            CacheControl {
                cacheability: cc.cacheability,
                revalidation: Revalidation { immutable: false, ..cc.revalidation },
            },
        ) + ", max-age=31536000, immutable"@,
{
}

} // verus!
