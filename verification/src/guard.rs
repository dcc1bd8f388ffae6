//! The two guards that stand before the paginated fetch.

use crate::error::Error;
use crate::model::{IssueCount, RateStatus};
use vstd::prelude::*;

verus! {

/// The largest number of open issues a repository may have to be paged
/// through: more would use up the quota within one request.
pub const MAX_ISSUES: u64 = 300;

/// The quota at or below which no further call is attempted: the guard's own
/// call has used one unit, and one is held back.
pub const QUOTA_FLOOR: u64 = 1;

/// Whether `rate`, what the rate-limit call gave, leaves room for the
/// request. An error is passed on unchanged.
pub open spec fn quota_check(rate: Result<RateStatus, Error>) -> Result<(), Error> {
    match rate {
        Err(error) => Err(error),
        Ok(rate) => if rate.remaining <= QUOTA_FLOOR {
            Err(Error::RateLimitReached)
        } else {
            Ok(())
        },
    }
}

/// Whether `count`, what the issue-count call gave, shows a repository of
/// at most `max` open issues. An error is passed on unchanged.
pub open spec fn size_check(count: Result<IssueCount, Error>, max: u64) -> Result<(), Error> {
    match count {
        Err(error) => Err(error),
        Ok(count) => if count.open_issues > max {
            Err(Error::TooManyIssues)
        } else {
            Ok(())
        },
    }
}

/// The rate limit guard: refuses the request where the remaining quota is
/// at or below the floor.
pub fn check_quota(rate: Result<RateStatus, Error>) -> (checked: Result<(), Error>)
    ensures
        checked == quota_check(rate),
{
    match rate {
        Err(error) => Err(error),
        Ok(rate) => if rate.remaining <= QUOTA_FLOOR {
            Err(Error::RateLimitReached)
        } else {
            Ok(())
        },
    }
}

/// The issue count guard: refuses the request where the repository has more
/// than `max` open issues.
pub fn check_size(count: Result<IssueCount, Error>, max: u64) -> (checked: Result<(), Error>)
    ensures
        checked == size_check(count, max),
{
    match count {
        Err(error) => Err(error),
        Ok(count) => if count.open_issues > max {
            Err(Error::TooManyIssues)
        } else {
            Ok(())
        },
    }
}

} // verus!
