//! Game sets (Urza's Saga, Darksteel, Dragons of Tarkir).
//!
//! Beside `cards`, `sets` is the one resource with `find()` and with filters
//! of its own.
use crate::decimal::{decimal, to_decimal};
use crate::query_builder::{
    self, collection_url, filter_set, filtered_url, identified_url, resolution, FilterSet,
    Transport,
};
use crate::status::ErrorKind;
use vstd::prelude::*;

verus! {

/// One set as the service describes it. A field inside `Option` may be absent.
#[derive(Default, Debug, Clone, PartialEq)]
pub struct GameSet {
    pub code: String,
    pub name: String,
    pub type_field: String,
    pub booster: Vec<Booster>,
    pub release_date: String,
    pub block: Option<String>,
    pub online_only: Option<bool>,
    pub gatherer_code: Option<String>,
    pub old_code: Option<String>,
    pub magic_cards_info_code: Option<String>,
    pub border: Option<String>,
    pub expansion: Option<String>,
    pub mkm_name: Option<String>,
    pub mkm_id: Option<u32>,
}

/// One slot of a booster: a single rarity, or the rarities it is drawn from.
#[derive(Clone, Debug, PartialEq, Eq)]
pub enum Booster {
    Multiple(Vec<String>),
    Single(String),
}

/// Envelope of a collection of sets.
#[derive(Clone, Debug)]
pub struct RootAll {
    pub sets: Vec<GameSet>,
}

/// Envelope of a single set.
#[derive(Clone, Debug)]
pub struct RootFind {
    pub set: GameSet,
}

/// Whether `name` is one of the filter names that the `sets` resource
/// recognizes.
pub open spec fn is_filter_name(name: Seq<char>) -> bool {
    name == "name"@
        || name == "block"@
        || name == "page"@
        || name == "pageSize"@
}

/// The filters applied so far, in the order in which they were applied. Only
/// names that the resource recognizes can be applied.
pub struct Where<'a> {
    query: Vec<(&'a str, String)>,
}

impl<'a> View for Where<'a> {
    type V = FilterSet;

    closed spec fn view(&self) -> FilterSet {
        filter_set(self.query@)
    }
}

/// The request for every set: the collection URL of `sets`.
pub fn all() -> (url: String)
    ensures
        url@ == collection_url("sets"@),
{
    query_builder::all("sets")
}

/// The request for the set with the given code. The code goes into the path
/// as it stands.
pub fn find(id: &str) -> (url: String)
    ensures
        url@ == identified_url("sets"@, id@),
{
    query_builder::find("sets", id)
}

/// A fresh builder with no filter applied.
pub fn filter<'a>() -> (builder: Where<'a>)
    ensures
        builder@ == FilterSet::empty(),
        builder.in_vocabulary(),
{
    let builder = Where { query: Vec::new() };
    assert(builder@ =~= FilterSet::empty());
    builder
}

/// What `all()` or a filtered request yields once the exchange is over: the
/// sets inside the envelope, or the error of the exchange.
pub fn resolve_all(report: Transport, body: Option<RootAll>) -> (r: Result<Vec<GameSet>, ErrorKind>)
    ensures
        r == (match resolution(report, body) {
            Ok(root) => Ok::<Vec<GameSet>, ErrorKind>(root.sets),
            Err(e) => Err(e),
        }),
{
    match query_builder::build(report, body) {
        Ok(root) => Ok(root.sets),
        Err(e) => Err(e),
    }
}

/// What `find()` yields once the exchange is over: the set inside the
/// envelope, or the error of the exchange.
pub fn resolve_find(report: Transport, body: Option<RootFind>) -> (r: Result<GameSet, ErrorKind>)
    ensures
        r == (match resolution(report, body) {
            Ok(root) => Ok::<GameSet, ErrorKind>(root.set),
            Err(e) => Err(e),
        }),
{
    match query_builder::build(report, body) {
        Ok(root) => Ok(root.set),
        Err(e) => Err(e),
    }
}

impl<'a> Where<'a> {
    /// Every name applied so far is one that the resource recognizes.
    #[verifier::type_invariant]
    spec fn scoped(self) -> bool {
        forall|i: int| 0 <= i < self.query@.len() ==> is_filter_name(#[trigger] self.query@[i].0@)
    }

    /// Every pair of the filter set carries a name of the vocabulary.
    pub open spec fn in_vocabulary(self) -> bool {
        forall|i: int| 0 <= i < self@.len() ==> is_filter_name(#[trigger] self@[i].0)
    }

    /// Appends one pair behind those already applied.
    fn with(self, name: &'a str, value: String) -> (r: Self)
        requires
            is_filter_name(name@),
        ensures
            r@ == self@.push((name@, value@)),
            r.in_vocabulary(),
    {
        proof {
            use_type_invariant(&self);
        }
        let mut query = self.query;
        query.push((name, value));
        let r = Where { query };
        assert(r@ =~= self@.push((name@, value@)));
        r
    }

    /// Number of pairs applied so far.
    pub fn len(&self) -> (n: usize)
        ensures
            n == self@.len(),
    {
        self.query.len()
    }

    /// Set name, or part of it.
    pub fn name(self, input: &'a str) -> (r: Self)
        ensures
            r@ == self@.push(("name"@, input@)),
            r.in_vocabulary(),
    {
        self.with("name", String::from_str(input))
    }

    /// Block that the set belongs to.
    pub fn block(self, input: &'a str) -> (r: Self)
        ensures
            r@ == self@.push(("block"@, input@)),
            r.in_vocabulary(),
    {
        self.with("block", String::from_str(input))
    }

    /// Page of the answer.
    pub fn page(self, input: u64) -> (r: Self)
        ensures
            r@ == self@.push(("page"@, decimal(input as nat))),
            r.in_vocabulary(),
    {
        self.with("page", to_decimal(input))
    }

    /// Number of sets per page.
    pub fn page_size(self, input: u64) -> (r: Self)
        ensures
            r@ == self@.push(("pageSize"@, decimal(input as nat))),
            r.in_vocabulary(),
    {
        self.with("pageSize", to_decimal(input))
    }

    /// The request for the sets that pass every filter applied: the filtered
    /// URL of `sets`, its pairs in the order of application. At least one
    /// filter must have been applied.
    pub fn all(self) -> (url: String)
        requires
            self@.len() > 0,
        ensures
            url@ == filtered_url("sets"@, self@),
            self.in_vocabulary(),
    {
        proof {
            use_type_invariant(&self);
        }
        let query = query_builder::params(&self.query);
        query_builder::filter("sets", query.as_str())
    }
}

} // verus!
