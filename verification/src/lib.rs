//! A verified client library for a hosted telemetry service.
//!
//! The crate covers the resilient transport and streaming-ingestion core:
//! endpoint resolution, rate-limit classification, retry policy, response
//! error mapping, event batching and the query builders.

pub mod annotations;
pub mod apl;
pub mod chunker;
pub mod client;
pub mod codec;
pub mod datasets;
pub mod endpoint;
pub mod error;
pub mod limits;
pub mod model;
pub mod num;
pub mod query;
pub mod query_builder;
pub mod response;
pub mod table;
pub mod text;
pub mod transport;
pub mod users;
pub mod virtual_fields;

pub use client::Client;
pub use error::Error;

use vstd::prelude::*;

verus! {

/// The prefix that marks a personal access token.
pub open spec fn personal_token_prefix() -> Seq<char> {
    "xapt-"@
}

/// A token is personal when it starts with the personal-token prefix.
pub open spec fn is_personal_token_spec(token: Seq<char>) -> bool {
    token.len() >= 5 && token.subrange(0, 5) == personal_token_prefix()
}

/// Returns true if the given access token is a personal token.
///
/// Personal tokens are recognised by a fixed prefix and require an explicit
/// organisation id on the default cloud endpoint.
pub fn is_personal_token(token: &str) -> (r: bool)
    ensures
        r == is_personal_token_spec(token@),
{
    proof {
        reveal_strlit("xapt-");
    }
    let len = token.unicode_len();
    if len < 5 {
        return false;
    }
    let r = token.get_char(0) == 'x' && token.get_char(1) == 'a' && token.get_char(2) == 'p'
        && token.get_char(3) == 't' && token.get_char(4) == '-';
    proof {
        if r {
            assert(token@.subrange(0, 5) =~= personal_token_prefix());
        } else if token@.subrange(0, 5) == personal_token_prefix() {
            assert(token@[0] == token@.subrange(0, 5)[0]);
            assert(token@[1] == token@.subrange(0, 5)[1]);
            assert(token@[2] == token@.subrange(0, 5)[2]);
            assert(token@[3] == token@.subrange(0, 5)[3]);
            assert(token@[4] == token@.subrange(0, 5)[4]);
        }
    }
    r
}

} // verus!

