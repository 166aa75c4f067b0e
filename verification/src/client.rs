//! The top-level client configuration: the builder, its validation rules,
//! and the immutable product the transport is constructed from.
//!
//! Configuration is resolved once, at construction: a violated rule fails
//! fast here and never at call time. The environment fallback is a concern
//! of the program edge; the builder itself is a pure function of the values
//! it was given.

use vstd::prelude::*;

use crate::endpoint::{
    default_api_url, resolve, spec_api_base, spec_style_base, spec_style_kind, url_ok, PathStyle,
    Resolved,
};
use crate::error::{Error, Result};
use crate::is_personal_token;
use crate::is_personal_token_spec;

verus! {

/// True if every character can stand in an HTTP header value: visible ASCII
/// and space.
pub open spec fn spec_header_value_ok(s: Seq<char>) -> bool {
    forall|i: int| 0 <= i < s.len() ==> 32 <= (#[trigger] s[i]) as int <= 126
}

/// Checks that a string can stand in an HTTP header value.
pub fn header_value_ok(s: &str) -> (r: bool)
    ensures
        r == spec_header_value_ok(s@),
{
    let len = s.unicode_len();
    let mut i: usize = 0;
    while i < len
        invariant
            0 <= i <= len == s@.len(),
            forall|j: int| 0 <= j < i ==> 32 <= (#[trigger] s@[j]) as int <= 126,
        decreases len - i,
    {
        let c = s.get_char(i);
        let code = c as u32;
        if !(32 <= code && code <= 126) {
            return false;
        }
        i = i + 1;
    }
    true
}

/// The validated, immutable client configuration.
pub struct Client {
    /// The base URL of the API target.
    pub api_base: String,
    /// The path style and base URL of the ingest/query target.
    pub style: PathStyle,
    /// The access token attached to every request.
    pub token: String,
    /// The organisation id attached to every request, when one is set.
    pub org_id: Option<String>,
}

impl Client {
    /// Creates a builder for a client.
    pub fn builder() -> (r: Builder)
        ensures
            r.env_fallback,
            r.url is None,
            r.token is None,
            r.org_id is None,
            r.edge_url is None,
            r.region is None,
    {
        Builder::new()
    }

    /// The base URL of the API target.
    pub fn url(&self) -> (r: &str)
        ensures
            r@ == self.api_base@,
    {
        self.api_base.as_str()
    }
}

/// Builds a client from explicit values. Unset options are filled from the
/// environment by the program edge before the build when the fallback is
/// enabled.
pub struct Builder {
    /// Whether the program edge should fill unset options from the
    /// environment.
    pub env_fallback: bool,
    /// The API base URL, when set.
    pub url: Option<String>,
    /// The access token, when set.
    pub token: Option<String>,
    /// The organisation id, when set.
    pub org_id: Option<String>,
    /// The explicit ingest/edge URL, when set.
    pub edge_url: Option<String>,
    /// The region name, when set.
    pub region: Option<String>,
}

/// The effective value of an option whose empty string counts as unset.
pub open spec fn spec_nonempty(v: Option<String>) -> Option<Seq<char>> {
    match v {
        Some(s) => if s@.len() == 0 {
            None
        } else {
            Some(s@)
        },
        None => None,
    }
}

/// Whether the configuration is missing its token.
pub open spec fn spec_missing_token(b: Builder) -> bool {
    spec_nonempty(b.token) is None
}

/// Whether the configuration needs an organisation id it does not have: a
/// personal token on the default cloud API URL.
pub open spec fn spec_missing_org_id(b: Builder) -> bool {
    &&& spec_api_base(spec_nonempty(b.url)) == default_api_url()
    &&& spec_nonempty(b.org_id) is None
    &&& spec_nonempty(b.token) matches Some(t) && is_personal_token_spec(t)
}

impl Builder {
    /// A fresh builder: nothing set, environment fallback enabled.
    pub fn new() -> (r: Builder)
        ensures
            r.env_fallback,
            r.url is None,
            r.token is None,
            r.org_id is None,
            r.edge_url is None,
            r.region is None,
    {
        Builder {
            env_fallback: true,
            url: None,
            token: None,
            org_id: None,
            edge_url: None,
            region: None,
        }
    }

    /// Don't fall back to environment variables.
    pub fn no_env(self) -> (r: Builder)
        ensures
            !r.env_fallback,
            r.url == self.url,
            r.token == self.token,
            r.org_id == self.org_id,
            r.edge_url == self.edge_url,
            r.region == self.region,
    {
        Builder { env_fallback: false, ..self }
    }

    /// Sets the access token.
    pub fn with_token(self, token: String) -> (r: Builder)
        ensures
            r.token == Some(token),
            r.env_fallback == self.env_fallback,
            r.url == self.url,
            r.org_id == self.org_id,
            r.edge_url == self.edge_url,
            r.region == self.region,
    {
        Builder { token: Some(token), ..self }
    }

    /// Sets the API base URL.
    pub fn with_url(self, url: String) -> (r: Builder)
        ensures
            r.url == Some(url),
            r.env_fallback == self.env_fallback,
            r.token == self.token,
            r.org_id == self.org_id,
            r.edge_url == self.edge_url,
            r.region == self.region,
    {
        Builder { url: Some(url), ..self }
    }

    /// Sets the organisation id.
    pub fn with_org_id(self, org_id: String) -> (r: Builder)
        ensures
            r.org_id == Some(org_id),
            r.env_fallback == self.env_fallback,
            r.url == self.url,
            r.token == self.token,
            r.edge_url == self.edge_url,
            r.region == self.region,
    {
        Builder { org_id: Some(org_id), ..self }
    }

    /// Sets the explicit ingest/edge URL.
    pub fn with_edge_url(self, edge_url: String) -> (r: Builder)
        ensures
            r.edge_url == Some(edge_url),
            r.env_fallback == self.env_fallback,
            r.url == self.url,
            r.token == self.token,
            r.org_id == self.org_id,
            r.region == self.region,
    {
        Builder { edge_url: Some(edge_url), ..self }
    }

    /// Sets the region name.
    pub fn with_region(self, region: String) -> (r: Builder)
        ensures
            r.region == Some(region),
            r.env_fallback == self.env_fallback,
            r.url == self.url,
            r.token == self.token,
            r.org_id == self.org_id,
            r.edge_url == self.edge_url,
    {
        Builder { region: Some(region), ..self }
    }

    /// Builds the client, validating the whole configuration.
    ///
    /// In order of precedence: an absent or empty token is missing; a
    /// personal token on the default cloud API URL without an organisation
    /// id is missing its organisation id; a URL that does not parse is
    /// invalid; a token or organisation id that cannot stand in a header
    /// value is invalid. Otherwise the endpoints are resolved and the
    /// client is returned.
    pub fn build(self) -> (r: Result<Client>)
        ensures
            ({
                let api = spec_api_base(spec_nonempty(self.url));
                let edge = spec_nonempty(self.edge_url);
                let reg = spec_nonempty(self.region);
                let base = spec_style_base(api, edge, reg);
                match r {
                    Ok(c) => {
                        &&& !spec_missing_token(self)
                        &&& !spec_missing_org_id(self)
                        &&& url_ok(api) && url_ok(base)
                        &&& spec_nonempty(self.token) matches Some(t) && c.token@ == t
                            && spec_header_value_ok(t)
                        &&& c.org_id.deep_view() == spec_nonempty(self.org_id)
                        &&& (c.org_id matches Some(o) ==> spec_header_value_ok(o@))
                        &&& c.api_base@ == api
                        &&& c.style.spec_kind() == spec_style_kind(api, edge, reg)
                        &&& c.style.spec_base() == base
                    },
                    Err(e) => match e {
                        Error::MissingToken => spec_missing_token(self),
                        Error::MissingOrgId => !spec_missing_token(self) && spec_missing_org_id(
                            self,
                        ),
                        Error::InvalidUrl => !spec_missing_token(self) && !spec_missing_org_id(
                            self,
                        ) && !(url_ok(api) && url_ok(base)),
                        Error::InvalidToken => {
                            &&& !spec_missing_token(self)
                            &&& !spec_missing_org_id(self)
                            &&& url_ok(api) && url_ok(base)
                            &&& spec_nonempty(self.token) matches Some(t)
                                && !spec_header_value_ok(t)
                        },
                        Error::InvalidOrgId => {
                            &&& !spec_missing_token(self)
                            &&& !spec_missing_org_id(self)
                            &&& url_ok(api) && url_ok(base)
                            &&& spec_nonempty(self.token) matches Some(t) && spec_header_value_ok(
                                t,
                            )
                            &&& spec_nonempty(self.org_id) matches Some(o)
                                && !spec_header_value_ok(o)
                        },
                        _ => false,
                    },
                }
            }),
    {
        let token: Option<String> = match self.token {
            Some(t) => if t.unicode_len() == 0 {
                None
            } else {
                Some(t)
            },
            None => None,
        };
        let token = match token {
            Some(t) => t,
            None => {
                return Err(Error::MissingToken);
            },
        };
        let url: Option<String> = match self.url {
            Some(u) => if u.unicode_len() == 0 {
                None
            } else {
                Some(u)
            },
            None => None,
        };
        let org_id: Option<String> = match self.org_id {
            Some(o) => if o.unicode_len() == 0 {
                None
            } else {
                Some(o)
            },
            None => None,
        };
        let edge_url: Option<String> = match self.edge_url {
            Some(e) => if e.unicode_len() == 0 {
                None
            } else {
                Some(e)
            },
            None => None,
        };
        let region: Option<String> = match self.region {
            Some(g) => if g.unicode_len() == 0 {
                None
            } else {
                Some(g)
            },
            None => None,
        };

        // On the default cloud API URL a personal token needs an org id.
        let api_is_default = match &url {
            Some(u) => u.eq(&crate::endpoint::api_url_default().to_owned()),
            None => true,
        };
        if api_is_default && org_id.is_none() && is_personal_token(token.as_str()) {
            return Err(Error::MissingOrgId);
        }

        let resolved: Resolved = match resolve(
            match &url {
                Some(u) => Some(u.as_str()),
                None => None,
            },
            match &edge_url {
                Some(e) => Some(e.as_str()),
                None => None,
            },
            match &region {
                Some(g) => Some(g.as_str()),
                None => None,
            },
        ) {
            Ok(res) => res,
            Err(_) => {
                return Err(Error::InvalidUrl);
            },
        };

        if !header_value_ok(token.as_str()) {
            return Err(Error::InvalidToken);
        }
        match &org_id {
            Some(o) => {
                if !header_value_ok(o.as_str()) {
                    return Err(Error::InvalidOrgId);
                }
            },
            None => {},
        }

        Ok(Client { api_base: resolved.api_base, style: resolved.style, token, org_id })
    }
}

} // verus!
