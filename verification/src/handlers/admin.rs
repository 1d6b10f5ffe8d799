//! The administrative deletion endpoint.

use vstd::prelude::*;
use vstd::string::*;
use crate::text::{i64_of_text, parse_i64};
use crate::error::{AppError, ErrorModel};

verus! {

/// The body of a deletion request.
#[derive(Debug)]
pub struct AdminDeleteRequest {
    pub api_key: String,
}

/// Whether `at` is the place of the only `c` in `s`.
pub open spec fn only_at(s: Seq<char>, c: char, at: int) -> bool {
    &&& 0 <= at < s.len()
    &&& s[at] == c
    &&& forall|i: int| 0 <= i < s.len() && i != at ==> s[i] != c
}

/// Whether a request may delete: a secret is configured and the key is it.
pub open spec fn authorized(admin_secret: Seq<char>, api_key: Seq<char>) -> bool {
    admin_secret.len() > 0 && api_key == admin_secret
}

/// The chat and message that an identifier names: two integers with one
/// underscore between them.
pub open spec fn delete_target(id: Seq<char>) -> Option<(i64, i64)> {
    if exists|at: int| only_at(id, '_', at) {
        let at = choose|at: int| only_at(id, '_', at);
        match (
            i64_of_text(id.subrange(0, at)),
            i64_of_text(id.subrange(at + 1, id.len() as int)),
        ) {
            (Some(chat_id), Some(message_id)) => Some((chat_id, message_id)),
            _ => None,
        }
    } else {
        None
    }
}

proof fn lemma_only_at_unique(s: Seq<char>, c: char, a: int, b: int)
    requires
        only_at(s, c, a),
        only_at(s, c, b),
    ensures
        a == b,
{
}

/// Decides a deletion request: who may ask, and which message is meant.
/// Nothing is to be deleted unless the answer is `Ok`.
pub fn delete_image(admin_secret: &str, payload: &AdminDeleteRequest, id: &str) -> (r: Result<
    (i64, i64),
    AppError,
>)
    ensures
        !authorized(admin_secret@, payload.api_key@) ==> r is Err && r->Err_0@
            == ErrorModel::Unauthorized,
        authorized(admin_secret@, payload.api_key@) ==> match delete_target(id@) {
            Some(target) => r == Ok::<(i64, i64), AppError>(target),
            None => r is Err && r->Err_0@ == ErrorModel::InvalidId,
        },
{
    let secret = String::from_str(admin_secret);
    if admin_secret.unicode_len() == 0 || !(payload.api_key == secret) {
        return Err(AppError::Unauthorized);
    }
    let n = id.unicode_len();
    let mut found: Option<usize> = None;
    let mut twice = false;
    let mut i: usize = 0;
    while i < n
        invariant
            i <= n,
            n == id@.len(),
            !twice ==> match found {
                Some(at) => at < i && id@[at as int] == '_' && forall|j: int|
                    0 <= j < i && j != at ==> id@[j] != '_',
                None => forall|j: int| 0 <= j < i ==> id@[j] != '_',
            },
            twice ==> exists|a: int, b: int| 0 <= a < b < i && id@[a] == '_' && id@[b] == '_',
        decreases n - i,
    {
        if id.get_char(i) == '_' {
            if found.is_some() {
                if !twice {
                    assert(id@[found->Some_0 as int] == '_' && id@[i as int] == '_');
                }
                twice = true;
            } else {
                found = Some(i);
            }
        }
        i += 1;
    }
    if twice {
        proof {
            let (a, b) = choose|a: int, b: int|
                0 <= a < b < id@.len() && id@[a] == '_' && id@[b] == '_';
            assert forall|at: int| !only_at(id@, '_', at) by {
                if only_at(id@, '_', at) {
                    if at == a {
                        assert(id@[b] != '_');
                    } else {
                        assert(id@[a] != '_');
                    }
                }
            }
        }
        return Err(AppError::InvalidId);
    }
    let at = match found {
        Some(at) => at,
        None => {
            assert forall|at: int| !only_at(id@, '_', at) by {}
            return Err(AppError::InvalidId);
        },
    };
    proof {
        assert(only_at(id@, '_', at as int));
        let chosen = choose|k: int| only_at(id@, '_', k);
        lemma_only_at_unique(id@, '_', at as int, chosen);
    }
    let chat_text = id.substring_char(0, at);
    let message_text = id.substring_char(at + 1, n);
    match (parse_i64(chat_text), parse_i64(message_text)) {
        (Some(chat_id), Some(message_id)) => Ok((chat_id, message_id)),
        _ => Err(AppError::InvalidId),
    }
}

} // verus!
