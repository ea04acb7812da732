//! Cache-side rules: key naming and the checks made around cache calls.

pub mod keys;

use vstd::prelude::*;
use crate::config::{comma_list, RedisConfig};
use crate::text::views;
use crate::errors::AppError;
use crate::text::push_str;

verus! {

/// The message when no cache URL is configured.
pub open spec fn missing_url_message() -> Seq<char> {
    "REDIS_URLS is empty — at least one Redis URL is required"@
}

/// The server URLs to build the cache pool from; refused when the
/// configuration names none.
pub fn pool_precheck(config: &RedisConfig) -> (r: Result<Vec<String>, AppError>)
    ensures
        comma_list(config.url@).len() == 0 ==> (r matches Err(AppError::Internal(m)) && m@ == missing_url_message()),
        comma_list(config.url@).len() != 0 ==> (r matches Ok(v) && views(v@) == comma_list(config.url@)),
{
    let urls = config.urls();
    if urls.len() == 0 {
        let mut m = String::new();
        push_str(&mut m, "REDIS_URLS is empty — at least one Redis URL is required");
        assert(m@ =~= missing_url_message());
        Err(AppError::Internal(m))
    } else {
        Ok(urls)
    }
}

/// Whether a DEL removed anything, from the number of keys it removed.
pub fn deleted_any(deleted: i64) -> (r: bool)
    ensures
        r == (deleted > 0),
{
    deleted > 0
}

} // verus!
