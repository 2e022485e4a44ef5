//! Token checks for the two endpoints: a `token` query parameter for the
//! profile, a bearer `authorization` header for synthesis.

use axum::http::HeaderMap;
use vstd::prelude::*;

use crate::config::Config;
use crate::error::{AppError, AppErrorView};
use crate::http::headers::{header_fields, header_text, header_value, opt_text};
use crate::text::{
    after_first_space, ascii_upper, before_first_space, case_folding_pairs_letters,
    eq_ignore_ascii_case, eq_ignoring_ascii_case, is_first_space, split_at_first_space, str_eq,
};

verus! {

/// Whether an `authorization` header value grants access for `token`: its
/// scheme (the part before the first space) is `bearer` in any ASCII case,
/// and the rest after that space is exactly the token.
pub open spec fn bearer_accepts(header: Seq<char>, token: Seq<char>) -> bool {
    &&& eq_ignoring_ascii_case(before_first_space(header), "bearer"@)
    &&& after_first_space(header) == token
}

/// The error that every refused request gets.
pub open spec fn invalid_token() -> AppErrorView {
    AppErrorView::Unauthorized("Invalid Token"@)
}

/// Accepts a profile request exactly when its `token` query parameter is
/// present and equal to the configured token.
pub fn verify_query_token(config: &Config, token: Option<&str>) -> (res: Result<(), AppError>)
    ensures
        res is Ok <==> opt_text(token) == Some(config.auth.token@),
        res matches Err(e) ==> e@ == invalid_token(),
{
    match token {
        Some(given) => {
            if str_eq(given, config.auth.token.as_str()) {
                return Ok(());
            }
        },
        None => {},
    }
    Err(AppError::Unauthorized("Invalid Token"))
}

/// Accepts a synthesis request exactly when its `authorization` header is
/// readable text that `bearer_accepts` for the configured token.
pub fn verify_header_token(config: &Config, headers: &HeaderMap) -> (res: Result<(), AppError>)
    ensures
        res is Ok <==> (match header_text(header_fields(*headers), "authorization"@) {
            Some(header) => bearer_accepts(header, config.auth.token@),
            None => false,
        }),
        res matches Err(e) ==> e@ == invalid_token(),
{
    proof {
        reveal_strlit("authorization");
    }
    let auth_header = match header_value(headers, "authorization") {
        Some(value) => value,
        None => {
            return Err(AppError::Unauthorized("Invalid Token"));
        },
    };
    let (scheme, token) = split_at_first_space(auth_header);
    if eq_ignore_ascii_case(scheme, "bearer") && str_eq(token, config.auth.token.as_str()) {
        Ok(())
    } else {
        Err(AppError::Unauthorized("Invalid Token"))
    }
}

/// The header `Bearer <token>`, which the generated Legado profile sends, is
/// accepted for `token`, whatever the token holds.
pub proof fn bearer_header_is_accepted(token: Seq<char>)
    ensures
        bearer_accepts("Bearer "@ + token, token),
{
    reveal_strlit("Bearer ");
    reveal_strlit("bearer");
    let header = "Bearer "@ + token;
    assert(is_first_space(header, 6));
    let k = choose|k: int| is_first_space(header, k);
    assert(k == 6) by {
        if k < 6 {
            assert(header[k] != ' ');
        } else if k > 6 {
            assert(header[6] != ' ');
        }
    }
    assert(before_first_space(header) =~= header.take(6));
    assert(after_first_space(header) =~= token);
    assert(eq_ignoring_ascii_case(header.take(6), "bearer"@));
}

/// The bearer scheme is accepted in any mix of ASCII cases: a header
/// whose scheme spells `bearer` with any of its letters capitalised (such as
/// `BEARER` or `Bearer`), a space, and then the token is accepted for that token.
pub proof fn bearer_scheme_in_any_case(scheme: Seq<char>, token: Seq<char>)
    requires
        scheme.len() == 6,
        forall|i: int| 0 <= i < 6 ==> #[trigger] scheme[i] == "bearer"@[i] || scheme[i] == ascii_upper(
            "bearer"@[i],
        ),
    ensures
        bearer_accepts(scheme + " "@ + token, token),
{
    reveal_strlit("bearer");
    reveal_strlit(" ");
    let header = scheme + " "@ + token;
    assert forall|j: int| 0 <= j < 6 implies #[trigger] header[j] != ' ' by {
        assert(header[j] == scheme[j]);
    }
    assert(is_first_space(header, 6));
    let k = choose|k: int| is_first_space(header, k);
    assert(k == 6) by {
        if k < 6 {
            assert(header[k] != ' ');
        } else if k > 6 {
            assert(header[6] == ' ');
        }
    }
    assert(before_first_space(header) =~= scheme);
    assert(after_first_space(header) =~= token);
    assert forall|i: int| 0 <= i < 6 implies lower_code_matches(scheme, i) by {
        case_folding_pairs_letters(scheme[i], "bearer"@[i]);
    }
}

spec fn lower_code_matches(scheme: Seq<char>, i: int) -> bool {
    crate::text::lower_code(scheme[i]) == crate::text::lower_code("bearer"@[i])
}

/// In particular, `BEARER <token>` is accepted for the token.
pub proof fn upper_case_bearer_is_accepted(token: Seq<char>)
    ensures
        bearer_accepts("BEARER "@ + token, token),
{
    reveal_strlit("BEARER ");
    reveal_strlit("BEARER");
    reveal_strlit("bearer");
    reveal_strlit(" ");
    let scheme = "BEARER"@;
    assert forall|i: int| 0 <= i < 6 implies #[trigger] scheme[i] == "bearer"@[i] || scheme[i]
        == ascii_upper("bearer"@[i]) by {
        assert(scheme[i] == ascii_upper("bearer"@[i]));
    }
    bearer_scheme_in_any_case(scheme, token);
    assert("BEARER "@ + token =~= scheme + " "@ + token);
}

} // verus!
