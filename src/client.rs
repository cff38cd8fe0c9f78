//! A client's settings: the service's base address and the access token
//! sent with every call, and the request line each endpoint is called at.

use vstd::prelude::*;
use vstd::string::StrSliceExecFns;
use vstd::string::StringExecFns;

use crate::api::{endpoint_path, Endpoint};

verus! {

/// `s` without the `/` characters at its end.
pub open spec fn trim_slashes(s: Seq<char>) -> Seq<char>
    decreases s.len(),
{
    if s.len() > 0 && s.last() == '/' {
        trim_slashes(s.drop_last())
    } else {
        s
    }
}

/// The settings a gallery client calls the service with.
#[derive(Debug, Clone)]
pub struct ZeroGalleryClient {
    base_url: String,
    access_token: Option<String>,
}

/// `s` without the `/` characters at its end.
fn trim_trailing_slashes(s: &str) -> (r: String)
    ensures
        r@ == trim_slashes(s@),
{
    let mut k = s.unicode_len();
    assert(s@.subrange(0, k as int) =~= s@);
    while k > 0 && s.get_char(k - 1) == '/'
        invariant
            k <= s@.len(),
            trim_slashes(s@.subrange(0, k as int)) == trim_slashes(s@),
        decreases k,
    {
        assert(s@.subrange(0, k as int).drop_last() =~= s@.subrange(0, k - 1));
        k = k - 1;
    }
    String::from_str(s.substring_char(0, k))
}

impl ZeroGalleryClient {
    /// The base address, without a trailing `/`.
    pub closed spec fn base_url_view(&self) -> Seq<char> {
        self.base_url@
    }

    /// The access token, if one is set.
    pub closed spec fn token_view(&self) -> Option<Seq<char>> {
        match self.access_token {
            Some(t) => Some(t@),
            None => None,
        }
    }

    /// A client of the service at `base_url`, without an access token.
    pub fn new(base_url: &str) -> (r: ZeroGalleryClient)
        ensures
            r.base_url_view() == trim_slashes(base_url@),
            r.token_view() is None,
    {
        ZeroGalleryClient::with_token(base_url, None)
    }

    /// A client of the service at `base_url` that sends `access_token`.
    pub fn with_token(base_url: &str, access_token: Option<String>) -> (r: ZeroGalleryClient)
        ensures
            r.base_url_view() == trim_slashes(base_url@),
            r.token_view() == match access_token {
                Some(t) => Some(t@),
                None => None::<Seq<char>>,
            },
    {
        ZeroGalleryClient { base_url: trim_trailing_slashes(base_url), access_token }
    }

    /// Replaces the access token.
    pub fn set_access_token(&mut self, token: Option<String>)
        ensures
            final(self).base_url_view() == old(self).base_url_view(),
            final(self).token_view() == match token {
                Some(t) => Some(t@),
                None => None::<Seq<char>>,
            },
    {
        self.access_token = token;
    }

    /// The base address, without a trailing `/`.
    pub fn base_url(&self) -> (r: &str)
        ensures
            r@ == self.base_url_view(),
    {
        self.base_url.as_str()
    }

    /// The access token, if one is set.
    pub fn access_token(&self) -> (r: Option<&str>)
        ensures
            match r {
                Some(t) => self.token_view() == Some(t@),
                None => self.token_view() is None,
            },
    {
        match &self.access_token {
            Some(t) => Some(t.as_str()),
            None => None,
        }
    }

    /// The address an endpoint is called at.
    pub fn url(&self, endpoint: &Endpoint) -> (r: String)
        ensures
            r@ == self.base_url_view() + endpoint_path(*endpoint),
    {
        let path = endpoint.path();
        let mut u = self.base_url.clone();
        u.append(path.as_str());
        u
    }
}

} // verus!
