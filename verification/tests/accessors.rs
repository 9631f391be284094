use mtgsdk::cards;
use mtgsdk::cards::Card;
use mtgsdk::formats;
use mtgsdk::query_builder::Transport;
use mtgsdk::sets;
use mtgsdk::sets::{Booster, GameSet};
use mtgsdk::status::{ErrorKind, Status};
use mtgsdk::subtypes;
use mtgsdk::supertypes;
use mtgsdk::types;
use std::collections::HashSet;

fn ok() -> Transport {
    Transport::Responded(Status::ok())
}

fn names(list: &[&str]) -> HashSet<String> {
    list.iter().map(|name| String::from(*name)).collect()
}

fn card(name: &str) -> Card {
    Card { name: String::from(name), ..Card::default() }
}

fn set(code: &str, name: &str) -> GameSet {
    GameSet { code: String::from(code), name: String::from(name), ..GameSet::default() }
}

fn cards_named(count: usize) -> Vec<Card> {
    (0..count).map(|i| card(&format!("Card {}", i))).collect()
}

#[test]
fn get_all_formats() {
    assert_eq!(formats::all(), "https://api.magicthegathering.io/v1/formats");
    let body = formats::RootAll { formats: names(&["Standard", "Modern", "Legacy"]) };
    let fmt = formats::resolve_all(ok(), Some(body));
    assert!(fmt.unwrap().contains("Modern"));
}

#[test]
fn get_all_types() {
    assert_eq!(types::all(), "https://api.magicthegathering.io/v1/types");
    let body = types::RootAll { types: names(&["Artifact", "Planeswalker"]) };
    let typ = types::resolve_all(ok(), Some(body));
    assert!(typ.unwrap().contains("Planeswalker"));
}

#[test]
fn get_all_subtypes() {
    assert_eq!(subtypes::all(), "https://api.magicthegathering.io/v1/subtypes");
    let body = subtypes::RootAll { subtypes: names(&["Eldrazi", "Goblin"]) };
    let sub = subtypes::resolve_all(ok(), Some(body));
    assert!(sub.unwrap().contains("Eldrazi"));
}

#[test]
fn get_all_supertypes() {
    assert_eq!(supertypes::all(), "https://api.magicthegathering.io/v1/supertypes");
    let body = supertypes::RootAll { supertypes: names(&["Basic", "Legendary"]) };
    let sup = supertypes::resolve_all(ok(), Some(body));
    assert!(sup.unwrap().contains("Basic"));
}

#[test]
fn get_all_sets() {
    assert_eq!(sets::all(), "https://api.magicthegathering.io/v1/sets");
    let body = sets::RootAll { sets: vec![set("10E", "Tenth Edition")] };
    let sets = sets::resolve_all(ok(), Some(body));
    assert!(sets.unwrap().len() > 0);
}

#[test]
fn find_set() {
    assert_eq!(sets::find("dom"), "https://api.magicthegathering.io/v1/sets/dom");
    let body = sets::RootFind { set: set("DOM", "Dominaria") };
    let sets = sets::resolve_find(ok(), Some(body));
    assert_eq!(sets.unwrap().name, "Dominaria");
}

#[test]
fn filter_name() {
    let url = sets::filter().name("mira").all();
    assert_eq!(url, "https://api.magicthegathering.io/v1/sets?name=mira");
    let body = sets::RootAll { sets: vec![set("MIR", "Mirage")] };
    let sets = sets::resolve_all(ok(), Some(body));
    assert_eq!(sets.unwrap().pop().unwrap().name, "Mirage");
}

#[test]
fn filter_page() {
    let url = sets::filter().page(2).page_size(13).all();
    assert_eq!(url, "https://api.magicthegathering.io/v1/sets?page=2&pageSize=13");
    let records: Vec<GameSet> = (0..13).map(|i| set(&format!("S{}", i), "Some set")).collect();
    let sets = sets::resolve_all(ok(), Some(sets::RootAll { sets: records }));
    assert_eq!(sets.unwrap().len(), 13);
}

#[test]
fn get_all_cards() {
    assert_eq!(cards::all(), "https://api.magicthegathering.io/v1/cards");
    let body = cards::RootAll { cards: vec![card("Ancestor's Chosen"), card("Angel of Mercy")] };
    let cards = cards::resolve_all(ok(), Some(body));
    assert_eq!(
        cards.unwrap().get(0).unwrap().name.chars().collect::<Vec<char>>()[0],
        'A'
    );
}

#[test]
fn find_card() {
    assert_eq!(cards::find(386616), "https://api.magicthegathering.io/v1/cards/386616");
    let body = cards::RootFind { card: card("Narset, Enlightened Master") };
    let cards = cards::resolve_find(ok(), Some(body));
    assert_eq!(cards.unwrap().name, "Narset, Enlightened Master");
}

#[test]
fn test_card_with_no_mana_cost() {
    assert_eq!(cards::find(438608), "https://api.magicthegathering.io/v1/cards/438608");
    let record = Card { mana_cost: None, ..card("Ancestral Vision") };
    let cards = cards::resolve_find(ok(), Some(cards::RootFind { card: record }));
    let found = cards.unwrap();
    assert_eq!(found.name, "Ancestral Vision");
    assert_eq!(found.mana_cost, None);
}

#[test]
fn filter_card() {
    let url = cards::filter().name("Karn").all();
    assert_eq!(url, "https://api.magicthegathering.io/v1/cards?name=Karn");
    let body = cards::RootAll { cards: vec![card("Karn, Silver Golem"), card("Karn Liberated")] };
    let cards = cards::resolve_all(ok(), Some(body));
    assert!(cards.unwrap().iter().any(|card| card.name == "Karn Liberated"));
}

#[test]
fn filter_card_two() {
    let url = cards::filter().page(50).page_size(50).all();
    assert_eq!(url, "https://api.magicthegathering.io/v1/cards?page=50&pageSize=50");
    let cards = cards::resolve_all(ok(), Some(cards::RootAll { cards: cards_named(50) }));
    assert_eq!(cards.unwrap().len(), 50);
}

#[test]
fn filter_card_three() {
    let url = cards::filter().supertypes("legendary").types("creature").colors("red,white").all();
    assert_eq!(
        url,
        "https://api.magicthegathering.io/v1/cards?supertypes=legendary&types=creature&colors=red,white"
    );
    let body = cards::RootAll { cards: vec![card("Breya, Etherium Shaper")] };
    let cards = cards::resolve_all(ok(), Some(body));
    assert!(cards.unwrap().iter().any(|card| card.name == "Breya, Etherium Shaper"));
}

#[test]
fn many_pages_stress() {
    let mut page: u64 = 0;
    while page < 50 {
        page += 1;
        let url = cards::filter().page(page).page_size(100).all();
        assert_eq!(
            url,
            format!("https://api.magicthegathering.io/v1/cards?page={}&pageSize=100", page)
        );
        let cards = cards::resolve_all(ok(), Some(cards::RootAll { cards: cards_named(100) }));
        assert_eq!(cards.unwrap().len(), 100);
    }
}

#[test]
fn records_come_back_as_they_were_decoded() {
    let record = GameSet {
        booster: vec![
            Booster::Single(String::from("rare")),
            Booster::Multiple(vec![String::from("land"), String::from("marketing")]),
        ],
        block: Some(String::from("Dominaria")),
        online_only: Some(false),
        mkm_id: Some(1724),
        ..set("DOM", "Dominaria")
    };
    let found = sets::resolve_find(ok(), Some(sets::RootFind { set: record.clone() }));
    assert_eq!(found, Ok(record));
}

#[test]
fn card_cost_keeps_its_exact_value() {
    let record = Card { cmc_bits: 2.5f64.to_bits(), ..card("Little Girl") };
    let found = cards::resolve_find(ok(), Some(cards::RootFind { card: record })).unwrap();
    assert_eq!(f64::from_bits(found.cmc_bits), 2.5);
    assert_eq!(f64::from_bits(Card::default().cmc_bits), 0.0);
}

#[test]
fn accessors_pass_the_error_on() {
    let not_found = Transport::Responded(Status::not_found());
    assert_eq!(cards::resolve_all(not_found, None), Err(ErrorKind::Http(Status { code: 404 })));
    assert_eq!(cards::resolve_find(not_found, None), Err(ErrorKind::Http(Status { code: 404 })));
    assert_eq!(sets::resolve_all(not_found, None), Err(ErrorKind::Http(Status { code: 404 })));
    assert_eq!(sets::resolve_find(not_found, None), Err(ErrorKind::Http(Status { code: 404 })));
    assert_eq!(
        formats::resolve_all(not_found, None),
        Err(ErrorKind::Http(Status { code: 404 }))
    );
    assert_eq!(types::resolve_all(not_found, None), Err(ErrorKind::Http(Status { code: 404 })));
    assert_eq!(
        subtypes::resolve_all(not_found, None),
        Err(ErrorKind::Http(Status { code: 404 }))
    );
    assert_eq!(
        supertypes::resolve_all(not_found, None),
        Err(ErrorKind::Http(Status { code: 404 }))
    );
}

#[test]
fn accessors_collapse_a_malformed_body() {
    assert_eq!(cards::resolve_all(ok(), None), Err(ErrorKind::Http(Status { code: 400 })));
    assert_eq!(sets::resolve_find(ok(), None), Err(ErrorKind::Http(Status { code: 400 })));
    assert_eq!(formats::resolve_all(ok(), None), Err(ErrorKind::Http(Status { code: 400 })));
}

#[test]
fn accessors_ignore_the_body_of_a_failure() {
    let body = sets::RootAll { sets: vec![set("MIR", "Mirage")] };
    assert_eq!(
        sets::resolve_all(Transport::Failed(None), Some(body)),
        Err(ErrorKind::Http(Status { code: 400 }))
    );
}

#[test]
fn same_answer_twice_gives_identical_records() {
    let first = cards::resolve_find(ok(), Some(cards::RootFind { card: card("Narset") }));
    let second = cards::resolve_find(ok(), Some(cards::RootFind { card: card("Narset") }));
    assert_eq!(first, second);
}
