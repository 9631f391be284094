//! Game cards ("Kokusho, the Evening Star", "Island", "Black Lotus").
//!
//! Beside `sets`, `cards` is the one resource with `find()` and with filters
//! of its own.
use crate::decimal::{decimal, to_decimal};
use crate::query_builder::{
    self, collection_url, filter_set, filtered_url, identified_url, resolution, FilterSet,
    Transport,
};
use crate::status::ErrorKind;
use std::collections::HashSet;
use vstd::prelude::*;

verus! {

/// One ruling on a card.
#[derive(Clone, Debug, PartialEq, Eq)]
pub struct Rulings {
    pub date: String,
    pub text: String,
}

/// A card's name and text in another language.
#[derive(Clone, Debug, PartialEq, Eq)]
pub struct ForeignNames {
    pub name: String,
    pub text: String,
    pub type_field: Option<String>,
    pub flavor: Option<String>,
    pub image_url: Option<String>,
    pub language: String,
    pub multiverseid: Option<i64>,
}

/// A card's legality in one game format.
#[derive(Clone, Debug, PartialEq, Eq)]
pub struct Legalities {
    pub format: String,
    pub legality: String,
}

/// One card as the service describes it. A field inside `Option` may be absent.
#[derive(Default, Debug, PartialEq)]
pub struct Card {
    pub name: String,
    pub layout: String,
    /// Converted mana cost. The service sends a number with a fraction; here
    /// it is kept exactly, as the 64 bits of its binary encoding.
    pub cmc_bits: u64,
    pub colors: Option<HashSet<String>>,
    pub color_identity: Option<HashSet<String>>,
    pub type_field: String,
    pub supertypes: Option<HashSet<String>>,
    pub types: HashSet<String>,
    pub subtypes: Option<HashSet<String>>,
    pub rarity: String,
    pub set_field: String,
    pub set_name: String,
    pub text: String,
    pub artist: String,
    pub number: String,
    pub power: Option<String>,
    pub toughness: Option<String>,
    pub loyalty: Option<String>,
    pub id: String,
    pub multiverseid: Option<String>,
    pub names: Option<HashSet<String>>,
    pub mana_cost: Option<String>,
    pub variations: Option<Vec<String>>,
    pub image_url: Option<String>,
    pub watermark: Option<String>,
    pub border: Option<String>,
    pub release_date: Option<String>,
    pub rulings: Option<Vec<Rulings>>,
    pub foreign_names: Vec<ForeignNames>,
    pub printings: HashSet<String>,
    pub original_text: Option<String>,
    pub original_type: Option<String>,
    pub legalities: Vec<Legalities>,
}

/// Envelope of a collection of cards.
#[derive(Debug)]
pub struct RootAll {
    pub cards: Vec<Card>,
}

/// Envelope of a single card.
#[derive(Debug)]
pub struct RootFind {
    pub card: Card,
}

/// Whether `name` is one of the filter names that the `cards` resource
/// recognizes.
pub open spec fn is_filter_name(name: Seq<char>) -> bool {
    name == "name"@
        || name == "layout"@
        || name == "cmc"@
        || name == "colors"@
        || name == "colorIdentity"@
        || name == "type"@
        || name == "supertypes"@
        || name == "types"@
        || name == "subtypes"@
        || name == "rarity"@
        || name == "set"@
        || name == "setName"@
        || name == "text"@
        || name == "flavor"@
        || name == "artist"@
        || name == "number"@
        || name == "power"@
        || name == "toughness"@
        || name == "loyalty"@
        || name == "language"@
        || name == "gameFormat"@
        || name == "legality"@
        || name == "page"@
        || name == "pageSize"@
        || name == "orderBy"@
        || name == "random"@
        || name == "contains"@
        || name == "id"@
        || name == "multiverseid"@
}

/// The filters applied so far, in the order in which they were applied. Only
/// names that the resource recognizes can be applied.
///
/// A filter takes one value. Several values for one filter are written into
/// that value, separated as the service asks (`|` or `,`); applying a filter
/// twice appends two pairs, and both are sent.
pub struct Where<'a> {
    query: Vec<(&'a str, String)>,
}

impl<'a> View for Where<'a> {
    type V = FilterSet;

    closed spec fn view(&self) -> FilterSet {
        filter_set(self.query@)
    }
}

/// The request for every card: the collection URL of `cards`. The service
/// answers with at most 100 cards; the `page` filter reaches the rest.
pub fn all() -> (url: String)
    ensures
        url@ == collection_url("cards"@),
{
    query_builder::all("cards")
}

/// The request for the card with the given multiverse identifier, which goes
/// into the path in base 10.
pub fn find(id: u64) -> (url: String)
    ensures
        url@ == identified_url("cards"@, decimal(id as nat)),
{
    let text_id = to_decimal(id);
    query_builder::find("cards", text_id.as_str())
}

/// A fresh builder with no filter applied.
pub fn filter<'a>() -> (builder: Where<'a>)
    ensures
        builder@ == FilterSet::empty(),
        builder.in_vocabulary(),
{
    let builder = Where { query: Vec::new() };
    assert(builder@ =~= FilterSet::empty());
    builder
}

/// What `all()` or a filtered request yields once the exchange is over: the
/// cards inside the envelope, or the error of the exchange.
pub fn resolve_all(report: Transport, body: Option<RootAll>) -> (r: Result<Vec<Card>, ErrorKind>)
    ensures
        r == (match resolution(report, body) {
            Ok(root) => Ok::<Vec<Card>, ErrorKind>(root.cards),
            Err(e) => Err(e),
        }),
{
    match query_builder::build(report, body) {
        Ok(root) => Ok(root.cards),
        Err(e) => Err(e),
    }
}

/// What `find()` yields once the exchange is over: the card inside the
/// envelope, or the error of the exchange.
pub fn resolve_find(report: Transport, body: Option<RootFind>) -> (r: Result<Card, ErrorKind>)
    ensures
        r == (match resolution(report, body) {
            Ok(root) => Ok::<Card, ErrorKind>(root.card),
            Err(e) => Err(e),
        }),
{
    match query_builder::build(report, body) {
        Ok(root) => Ok(root.card),
        Err(e) => Err(e),
    }
}

impl<'a> Where<'a> {
    /// Every name applied so far is one that the resource recognizes.
    #[verifier::type_invariant]
    spec fn scoped(self) -> bool {
        forall|i: int| 0 <= i < self.query@.len() ==> is_filter_name(#[trigger] self.query@[i].0@)
    }

    /// Every pair of the filter set carries a name of the vocabulary.
    pub open spec fn in_vocabulary(self) -> bool {
        forall|i: int| 0 <= i < self@.len() ==> is_filter_name(#[trigger] self@[i].0)
    }

    /// Appends one pair behind those already applied.
    fn with(self, name: &'a str, value: String) -> (r: Self)
        requires
            is_filter_name(name@),
        ensures
            r@ == self@.push((name@, value@)),
            r.in_vocabulary(),
    {
        proof {
            use_type_invariant(&self);
        }
        let mut query = self.query;
        query.push((name, value));
        let r = Where { query };
        assert(r@ =~= self@.push((name@, value@)));
        r
    }

    /// Number of pairs applied so far.
    pub fn len(&self) -> (n: usize)
        ensures
            n == self@.len(),
    {
        self.query.len()
    }

    /// Card name, or several names separated by `|`.
    pub fn name(self, input: &'a str) -> (r: Self)
        ensures
            r@ == self@.push(("name"@, input@)),
            r.in_vocabulary(),
    {
        self.with("name", String::from_str(input))
    }

    /// Card layout.
    pub fn layout(self, input: &'a str) -> (r: Self)
        ensures
            r@ == self@.push(("layout"@, input@)),
            r.in_vocabulary(),
    {
        self.with("layout", String::from_str(input))
    }

    /// Converted mana cost.
    pub fn cmc(self, input: u64) -> (r: Self)
        ensures
            r@ == self@.push(("cmc"@, decimal(input as nat))),
            r.in_vocabulary(),
    {
        self.with("cmc", to_decimal(input))
    }

    /// Colors, separated by `,` for all of them or `|` for any.
    pub fn colors(self, input: &'a str) -> (r: Self)
        ensures
            r@ == self@.push(("colors"@, input@)),
            r.in_vocabulary(),
    {
        self.with("colors", String::from_str(input))
    }

    /// Color identity.
    pub fn color_identity(self, input: &'a str) -> (r: Self)
        ensures
            r@ == self@.push(("colorIdentity"@, input@)),
            r.in_vocabulary(),
    {
        self.with("colorIdentity", String::from_str(input))
    }

    /// The full type line.
    pub fn type_field(self, input: &'a str) -> (r: Self)
        ensures
            r@ == self@.push(("type"@, input@)),
            r.in_vocabulary(),
    {
        self.with("type", String::from_str(input))
    }

    /// Supertypes.
    pub fn supertypes(self, input: &'a str) -> (r: Self)
        ensures
            r@ == self@.push(("supertypes"@, input@)),
            r.in_vocabulary(),
    {
        self.with("supertypes", String::from_str(input))
    }

    /// Types.
    pub fn types(self, input: &'a str) -> (r: Self)
        ensures
            r@ == self@.push(("types"@, input@)),
            r.in_vocabulary(),
    {
        self.with("types", String::from_str(input))
    }

    /// Subtypes.
    pub fn subtypes(self, input: &'a str) -> (r: Self)
        ensures
            r@ == self@.push(("subtypes"@, input@)),
            r.in_vocabulary(),
    {
        self.with("subtypes", String::from_str(input))
    }

    /// Rarity.
    pub fn rarity(self, input: &'a str) -> (r: Self)
        ensures
            r@ == self@.push(("rarity"@, input@)),
            r.in_vocabulary(),
    {
        self.with("rarity", String::from_str(input))
    }

    /// Set code.
    pub fn set_field(self, input: &'a str) -> (r: Self)
        ensures
            r@ == self@.push(("set"@, input@)),
            r.in_vocabulary(),
    {
        self.with("set", String::from_str(input))
    }

    /// Set name.
    pub fn set_name(self, input: &'a str) -> (r: Self)
        ensures
            r@ == self@.push(("setName"@, input@)),
            r.in_vocabulary(),
    {
        self.with("setName", String::from_str(input))
    }

    /// Oracle text.
    pub fn text(self, input: &'a str) -> (r: Self)
        ensures
            r@ == self@.push(("text"@, input@)),
            r.in_vocabulary(),
    {
        self.with("text", String::from_str(input))
    }

    /// Flavor text.
    pub fn flavor(self, input: &'a str) -> (r: Self)
        ensures
            r@ == self@.push(("flavor"@, input@)),
            r.in_vocabulary(),
    {
        self.with("flavor", String::from_str(input))
    }

    /// Artist.
    pub fn artist(self, input: &'a str) -> (r: Self)
        ensures
            r@ == self@.push(("artist"@, input@)),
            r.in_vocabulary(),
    {
        self.with("artist", String::from_str(input))
    }

    /// Collector number.
    pub fn number(self, input: &'a str) -> (r: Self)
        ensures
            r@ == self@.push(("number"@, input@)),
            r.in_vocabulary(),
    {
        self.with("number", String::from_str(input))
    }

    /// Power.
    pub fn power(self, input: &'a str) -> (r: Self)
        ensures
            r@ == self@.push(("power"@, input@)),
            r.in_vocabulary(),
    {
        self.with("power", String::from_str(input))
    }

    /// Toughness.
    pub fn toughness(self, input: &'a str) -> (r: Self)
        ensures
            r@ == self@.push(("toughness"@, input@)),
            r.in_vocabulary(),
    {
        self.with("toughness", String::from_str(input))
    }

    /// Loyalty.
    pub fn loyalty(self, input: &'a str) -> (r: Self)
        ensures
            r@ == self@.push(("loyalty"@, input@)),
            r.in_vocabulary(),
    {
        self.with("loyalty", String::from_str(input))
    }

    /// Language of a foreign printing.
    pub fn language(self, input: &'a str) -> (r: Self)
        ensures
            r@ == self@.push(("language"@, input@)),
            r.in_vocabulary(),
    {
        self.with("language", String::from_str(input))
    }

    /// Game format in which the card has a legality.
    pub fn game_format(self, input: &'a str) -> (r: Self)
        ensures
            r@ == self@.push(("gameFormat"@, input@)),
            r.in_vocabulary(),
    {
        self.with("gameFormat", String::from_str(input))
    }

    /// Legality within the game format.
    pub fn legality(self, input: &'a str) -> (r: Self)
        ensures
            r@ == self@.push(("legality"@, input@)),
            r.in_vocabulary(),
    {
        self.with("legality", String::from_str(input))
    }

    /// Page of the answer.
    pub fn page(self, input: u64) -> (r: Self)
        ensures
            r@ == self@.push(("page"@, decimal(input as nat))),
            r.in_vocabulary(),
    {
        self.with("page", to_decimal(input))
    }

    /// Number of cards per page.
    pub fn page_size(self, input: u64) -> (r: Self)
        ensures
            r@ == self@.push(("pageSize"@, decimal(input as nat))),
            r.in_vocabulary(),
    {
        self.with("pageSize", to_decimal(input))
    }

    /// Field to order the answer by.
    pub fn order_by(self, input: &'a str) -> (r: Self)
        ensures
            r@ == self@.push(("orderBy"@, input@)),
            r.in_vocabulary(),
    {
        self.with("orderBy", String::from_str(input))
    }

    /// Whether the answer is drawn at random.
    pub fn random(self, input: &'a str) -> (r: Self)
        ensures
            r@ == self@.push(("random"@, input@)),
            r.in_vocabulary(),
    {
        self.with("random", String::from_str(input))
    }

    /// A field that the card must have.
    pub fn contains(self, input: &'a str) -> (r: Self)
        ensures
            r@ == self@.push(("contains"@, input@)),
            r.in_vocabulary(),
    {
        self.with("contains", String::from_str(input))
    }

    /// Card identifier.
    pub fn id(self, input: &'a str) -> (r: Self)
        ensures
            r@ == self@.push(("id"@, input@)),
            r.in_vocabulary(),
    {
        self.with("id", String::from_str(input))
    }

    /// Multiverse identifier.
    pub fn multiverseid(self, input: u64) -> (r: Self)
        ensures
            r@ == self@.push(("multiverseid"@, decimal(input as nat))),
            r.in_vocabulary(),
    {
        self.with("multiverseid", to_decimal(input))
    }

    /// The request for the cards that pass every filter applied: the filtered
    /// URL of `cards`, its pairs in the order of application. At least one
    /// filter must have been applied.
    pub fn all(self) -> (url: String)
        requires
            self@.len() > 0,
        ensures
            url@ == filtered_url("cards"@, self@),
            self.in_vocabulary(),
    {
        proof {
            use_type_invariant(&self);
        }
        let query = query_builder::params(&self.query);
        query_builder::filter("cards", query.as_str())
    }
}

} // verus!
