//! Federation-wide reads: listing persons, multi-communities, search.
use vstd::prelude::*;
use crate::error::{Guard, StudyCycleErrorType, StudyCycleResult, require_guard, refused_by};

verus! {

/// Listing persons is refused to anonymous visitors of a private instance.
pub fn list_persons(private_instance_ok: bool) -> (res: StudyCycleResult<()>)
    ensures
        res == (if private_instance_ok { Ok(()) } else { Err::<(), StudyCycleErrorType>(
            StudyCycleErrorType::Refused(Guard::PrivateInstance),
        ) }),
{
    require_guard(private_instance_ok, Guard::PrivateInstance)
}

/// A multi-community is read by the id that its name or id resolved to;
/// when neither resolved, the request gave no id.
pub fn read_multi_community(resolved_id: Option<i32>) -> (res: StudyCycleResult<i32>)
    ensures
        res == (match resolved_id {
            Some(id) => Ok(id),
            None => Err::<i32, StudyCycleErrorType>(StudyCycleErrorType::NoIdGiven),
        }),
{
    match resolved_id {
        Some(id) => Ok(id),
        None => Err(StudyCycleErrorType::NoIdGiven),
    }
}

/// Which items a listing covers.
#[derive(Debug, Clone, Copy, PartialEq, Eq, Structural)]
pub enum ListingScope {
    /// Items of every instance.
    All,
    /// Items of this instance only.
    Local,
    /// Items of the communities the person follows.
    Subscribed,
}

/// The order a listing puts its items in.
#[derive(Debug, Clone, Copy, PartialEq, Eq, Structural)]
pub enum ListingOrder {
    /// Newest first.
    New,
    /// Oldest first.
    Old,
}

/// One of the listings that a search runs: the term, the title-only flag,
/// which items it covers and in which order.
pub struct SearchQuery {
    pub search_term: Option<String>,
    pub search_title_only: Option<bool>,
    pub listing: ListingScope,
    pub sort: ListingOrder,
}

/// The five listings that a search runs.
pub struct SearchPlan {
    pub posts: SearchQuery,
    pub comments: SearchQuery,
    pub persons: SearchQuery,
    pub communities: SearchQuery,
    pub multi_communities: SearchQuery,
}

/// The listing a search runs over one kind of item: the term, the
/// title-only flag where that kind has titles, every instance, newest first.
pub open spec fn spec_search_query(
    q: SearchQuery,
    term: Seq<char>,
    title_only: Option<bool>,
) -> bool {
    &&& q.search_term matches Some(t) && t@ == term
    &&& q.search_title_only == title_only
    &&& q.listing == ListingScope::All
    &&& q.sort == ListingOrder::New
}

/// A search is refused to anonymous visitors of a private instance.
/// Otherwise it searches posts, comments, persons, communities and
/// multi-communities for the term, each over every instance and newest
/// first, whatever the person's default listing; the title-only flag applies
/// to all but comments, which have no title.
pub fn search(search_term: String, search_title_only: Option<bool>, private_instance_ok: bool) -> (res:
    StudyCycleResult<SearchPlan>)
    ensures
        !private_instance_ok ==> refused_by(res, Guard::PrivateInstance),
        private_instance_ok ==> (res matches Ok(plan) && {
            &&& spec_search_query(plan.posts, search_term@, search_title_only)
            &&& spec_search_query(plan.comments, search_term@, None)
            &&& spec_search_query(plan.persons, search_term@, search_title_only)
            &&& spec_search_query(plan.communities, search_term@, search_title_only)
            &&& spec_search_query(plan.multi_communities, search_term@, search_title_only)
        }),
{
    require_guard(private_instance_ok, Guard::PrivateInstance)?;
    let posts = SearchQuery {
        search_term: Some(search_term.clone()),
        search_title_only,
        listing: ListingScope::All,
        sort: ListingOrder::New,
    };
    let comments = SearchQuery {
        search_term: Some(search_term.clone()),
        search_title_only: None,
        listing: ListingScope::All,
        sort: ListingOrder::New,
    };
    let persons = SearchQuery {
        search_term: Some(search_term.clone()),
        search_title_only,
        listing: ListingScope::All,
        sort: ListingOrder::New,
    };
    let communities = SearchQuery {
        search_term: Some(search_term.clone()),
        search_title_only,
        listing: ListingScope::All,
        sort: ListingOrder::New,
    };
    let multi_communities = SearchQuery {
        search_term: Some(search_term),
        search_title_only,
        listing: ListingScope::All,
        sort: ListingOrder::New,
    };
    Ok(SearchPlan { posts, comments, persons, communities, multi_communities })
}

} // verus!
