//! The records of a successful JSON:API response.
use vstd::prelude::*;

verus! {

/// Pagination options passed as query parameters.
#[derive(PartialEq, Eq, Debug, Clone, Default)]
pub struct ListOptions {
    pub current_page: u32,
    pub total_pages: u32,
    pub total_count: u32,
    pub prev_page: Option<u32>,
    pub next_page: Option<u32>,
}

/// Where a listing response stands among its pages.
#[derive(PartialEq, Eq, Debug, Clone, Default)]
pub struct Pagination {
    pub current_page: u32,
    pub total_pages: u32,
    pub total_count: u32,
    pub prev_page: Option<u32>,
    pub next_page: Option<u32>,
}

/// Non-standard meta-information of a response.
#[derive(PartialEq, Eq, Debug, Clone, Default)]
pub struct Meta {
    pub pagination: Option<Pagination>,
}

/// Links relevant to the resources of a response.
#[derive(PartialEq, Eq, Debug, Clone, Default)]
pub struct Links {
    /// The link to this very document (`self` on the wire).
    pub _self: Option<String>,
    pub first: Option<String>,
    pub prev: Option<String>,
    pub next: Option<String>,
    pub last: Option<String>,
    pub related: Option<String>,
}

/// One resource object of a response.
#[derive(PartialEq, Eq, Debug, Clone)]
pub struct Data<ATTRIBUTES, RELATIONSHIPS> {
    /// The resource type (`type` on the wire).
    pub _type: String,
    pub id: Option<String>,
    pub attributes: Option<ATTRIBUTES>,
    pub links: Option<Links>,
    pub relationships: Option<RELATIONSHIPS>,
}

impl<ATTRIBUTES, RELATIONSHIPS> Default for Data<ATTRIBUTES, RELATIONSHIPS> {
    fn default() -> (r: Data<ATTRIBUTES, RELATIONSHIPS>)
        ensures
            r._type@ == Seq::<char>::empty(),
            r.id is None && r.attributes is None && r.links is None && r.relationships is None,
    {
        Data { _type: String::new(), id: None, attributes: None, links: None, relationships: None }
    }
}

/// A successful JSON:API response.
#[derive(PartialEq, Eq, Debug, Clone)]
pub struct Success<ATTRIBUTES, RELATIONSHIPS> {
    pub data: Data<ATTRIBUTES, RELATIONSHIPS>,
    pub included: Option<Vec<Data<ATTRIBUTES, RELATIONSHIPS>>>,
    pub links: Option<Links>,
    pub meta: Option<Meta>,
}

impl<ATTRIBUTES, RELATIONSHIPS> Default for Success<ATTRIBUTES, RELATIONSHIPS> {
    fn default() -> (r: Success<ATTRIBUTES, RELATIONSHIPS>)
        ensures
            r.data._type@ == Seq::<char>::empty(),
            r.data.id is None && r.data.attributes is None && r.data.links is None
                && r.data.relationships is None,
            r.included is None && r.links is None && r.meta is None,
    {
        Success { data: Data::default(), included: None, links: None, meta: None }
    }
}

} // verus!
