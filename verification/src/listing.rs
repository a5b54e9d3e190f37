//! Entry points for calls that list or look up records.
//!
//! Listing in pages has not been designed yet. The names are reserved so
//! that callers can see what is planned, and their contracts keep verified
//! code from calling them before there is something to call.

use vstd::prelude::*;

verus! {

/// Whether listing in pages is available. It is not.
pub open spec fn listing_available() -> bool {
    false
}

/// Reserved for fetching one page of the issues that `token` gives access
/// to.
pub fn get_issue_batch(_token: &String)
    requires
        listing_available(),
{
}

/// Reserved for fetching the pull requests of the repository `nwo`.
pub fn get_pull_requests(_token: &String, _nwo: &String)
    requires
        listing_available(),
{
}

/// Reserved for fetching all issues that `token` gives access to, page by
/// page.
pub fn get_all_issues(token: &String)
    requires
        listing_available(),
{
    get_issue_batch(token);
}

/// Looks up one installation of the app. There is nothing to compute for
/// it: the call takes no argument and returns nothing.
pub fn get_installation() {
}

} // verus!
