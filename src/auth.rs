//! Which requests the server lets through: reads are open, and so are a
//! few public endpoints; everything else needs the access token.

use vstd::prelude::*;
use crate::text::{chars_of, same_chars, starts_with, starts_with_chars};

verus! {

/// Token accepted when none is configured.
pub const DEFAULT_TOKEN: &'static str = "default_token";

/// An endpoint that anyone may call: one of the listed paths, or below
/// "/api/skills/category/" or "/swagger-ui/".
pub open spec fn is_public_path(p: Seq<char>) -> bool {
    p == "/health"@ || p == "/ready"@ || p == "/api/skills"@ || p == "/api/projects"@
        || p == "/api/projects/featured"@ || p == "/swagger-ui"@ || p == "/api-docs/openapi.json"@
        || starts_with(p, "/api/skills/category/"@) || starts_with(p, "/swagger-ui/"@)
}

/// The header carries `token` as a bearer token: "Bearer " followed by it.
pub open spec fn bearer_matches(header: Seq<char>, token: Seq<char>) -> bool {
    starts_with(header, "Bearer "@) && header.subrange(7, header.len() as int) == token
}

/// A request to `path` with this `Authorization` header is let through.
pub open spec fn auth_allows_spec(path: Seq<char>, header: Option<Seq<char>>, token: Seq<char>) -> bool {
    is_public_path(path) || (header matches Some(h) && bearer_matches(h, token))
}

/// Whether anyone may call the endpoint at `path`.
pub fn is_public_endpoint(path: &str) -> (r: bool)
    ensures
        r == is_public_path(path@),
{
    let p = chars_of(path);
    proof {
        reveal_strlit("/health");
        reveal_strlit("/ready");
        reveal_strlit("/api/skills");
        reveal_strlit("/api/projects");
        reveal_strlit("/api/projects/featured");
        reveal_strlit("/swagger-ui");
        reveal_strlit("/api-docs/openapi.json");
    }
    same_chars(&p, &chars_of("/health")) || same_chars(&p, &chars_of("/ready")) || same_chars(
        &p,
        &chars_of("/api/skills"),
    ) || same_chars(&p, &chars_of("/api/projects")) || same_chars(
        &p,
        &chars_of("/api/projects/featured"),
    ) || same_chars(&p, &chars_of("/swagger-ui")) || same_chars(
        &p,
        &chars_of("/api-docs/openapi.json"),
    ) || starts_with_chars(&p, &chars_of("/api/skills/category/")) || starts_with_chars(
        &p,
        &chars_of("/swagger-ui/"),
    )
}

/// The token requests must carry: the configured one, else "default_token".
pub fn get_valid_token(configured: Option<String>) -> (r: String)
    ensures
        r@ == (match configured {
            Some(t) => t@,
            None => "default_token"@,
        }),
{
    match configured {
        Some(t) => t,
        None => DEFAULT_TOKEN.to_string(),
    }
}

/// Whether a request to `path`, with the `Authorization` header `header`
/// (`None` when missing or not text), is let through when `token` is the
/// valid token.
pub fn auth_allows(path: &str, header: Option<&str>, token: &str) -> (r: bool)
    ensures
        r == auth_allows_spec(
            path@,
            match header {
                Some(h) => Some(h@),
                None => None,
            },
            token@,
        ),
{
    if is_public_endpoint(path) {
        return true;
    }
    match header {
        None => false,
        Some(h) => {
            let hc = chars_of(h);
            proof { reveal_strlit("Bearer "); }
            if !starts_with_chars(&hc, &chars_of("Bearer ")) {
                return false;
            }
            let mut rest: Vec<char> = Vec::new();
            let mut i: usize = 7;
            while i < hc.len()
                invariant
                    7 <= i <= hc@.len(),
                    rest@ == hc@.subrange(7, i as int),
                decreases hc@.len() - i,
            {
                rest.push(hc[i]);
                i = i + 1;
                assert(rest@ =~= hc@.subrange(7, i as int));
            }
            same_chars(&rest, &chars_of(token))
        },
    }
}

/// Whether a request with this method is let through: reads always, other
/// methods as `auth_allows` decides.
pub fn write_guard_allows(method: &str, path: &str, header: Option<&str>, token: &str) -> (r: bool)
    ensures
        r == (method@ == "GET"@ || auth_allows_spec(
            path@,
            match header {
                Some(h) => Some(h@),
                None => None,
            },
            token@,
        )),
{
    proof { reveal_strlit("GET"); }
    if same_chars(&chars_of(method), &chars_of("GET")) {
        return true;
    }
    auth_allows(path, header, token)
}

} // verus!
