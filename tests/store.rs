use cousin_tea::account::AccountId;
use cousin_tea::model::{INVALID_ID, NOT_AUTHORIZED, NOT_OWNER, OK, RECORD_MISSING};
use cousin_tea::store::CousinTea;

fn alice() -> AccountId {
    AccountId::from_bytes([1u8; 32])
}

fn bob() -> AccountId {
    AccountId::from_bytes([2u8; 32])
}

fn charlie() -> AccountId {
    AccountId::from_bytes([3u8; 32])
}

#[test]
fn default_works() {
    let cousin_tea = CousinTea::default(alice());
    let owner = cousin_tea.owner();
    assert_eq!(cousin_tea.owner(), owner);
    assert_eq!(owner, alice());
}

#[test]
fn order_works() {
    let mut cousin_tea = CousinTea::default(alice());
    let order_info = String::from("Some order info in json");
    // add order
    let order_add_result = cousin_tea.add_order(alice(), order_info);
    assert_eq!(order_add_result, 0);

    // alter order
    let altered_info = String::from("Some alterd info");
    let alter_order_result = cousin_tea.alter_order(alice(), 0, altered_info.clone());
    assert_eq!(alter_order_result, 0);

    let count = cousin_tea.order_count();
    assert_eq!(count, 1);

    // get order
    let order_info = cousin_tea.get_order(alice(), 0);
    assert_eq!(order_info, altered_info);
}

#[test]
fn commody_works() {
    let mut cousin_tea = CousinTea::default(alice());
    let commody_info = String::from("Some commody");
    // add commody
    let add_res = cousin_tea.add_commody(alice(), commody_info.clone());
    assert_eq!(add_res, 0);
    cousin_tea.add_commody(alice(), commody_info.clone());

    // get commody
    let commody = cousin_tea.get_commody(0);
    assert_eq!(commody, commody_info);

    // alter commody
    let alter_info = String::from("To be altered");
    let alter_res = cousin_tea.alter_commody(alice(), 0, alter_info);
    assert_eq!(alter_res, 0);

    // get count
    let commody_count = cousin_tea.commody_count();
    assert_eq!(commody_count, 2);
}

#[test]
fn status_codes_have_their_numbers() {
    assert_eq!(OK, 0);
    assert_eq!(NOT_OWNER, 1);
    assert_eq!(NOT_AUTHORIZED, 1);
    assert_eq!(INVALID_ID, 2);
    assert_eq!(RECORD_MISSING, 3);
}

#[test]
fn fresh_store_is_empty() {
    let store = CousinTea::new(alice());
    assert_eq!(store.commody_count(), 0);
    assert_eq!(store.order_count(), 0);
    assert_eq!(store.get_commody(0), "");
    assert_eq!(store.get_order(alice(), 0), "");
}

#[test]
fn owner_adds_count_every_call() {
    let mut store = CousinTea::new(alice());
    for i in 0..5u32 {
        assert_eq!(store.add_commody(alice(), format!("tea {}", i)), OK);
        assert_eq!(store.commody_count(), i + 1);
    }
    for i in 0..5u32 {
        assert_eq!(store.get_commody(i), format!("tea {}", i));
    }
}

#[test]
fn non_owner_add_is_refused() {
    let mut store = CousinTea::new(alice());
    assert_eq!(store.add_commody(bob(), String::from("fake tea")), NOT_OWNER);
    assert_eq!(store.commody_count(), 0);
    assert_eq!(store.get_commody(0), "");
}

#[test]
fn added_commodity_reads_back_until_altered() {
    let mut store = CousinTea::new(alice());
    store.add_commody(alice(), String::from("green"));
    store.add_commody(alice(), String::from("black"));
    store.add_order(bob(), String::from("two boxes"));
    assert_eq!(store.get_commody(0), "green");
    assert_eq!(store.get_commody(1), "black");
    assert_eq!(store.alter_commody(alice(), 0, String::from("jasmine")), OK);
    assert_eq!(store.get_commody(0), "jasmine");
    assert_eq!(store.get_commody(1), "black");
}

#[test]
fn non_owner_alter_commodity_is_refused_for_any_id() {
    let mut store = CousinTea::new(alice());
    store.add_commody(alice(), String::from("green"));
    assert_eq!(store.alter_commody(bob(), 0, String::from("x")), NOT_OWNER);
    assert_eq!(store.alter_commody(bob(), 1, String::from("x")), NOT_OWNER);
    assert_eq!(store.alter_commody(bob(), 99, String::from("x")), NOT_OWNER);
    assert_eq!(store.get_commody(0), "green");
}

#[test]
fn alter_commodity_boundaries() {
    let mut store = CousinTea::new(alice());
    store.add_commody(alice(), String::from("green"));
    // the counter itself passes the range check and is then missing
    assert_eq!(store.alter_commody(alice(), 1, String::from("x")), RECORD_MISSING);
    // beyond the counter the id is invalid
    assert_eq!(store.alter_commody(alice(), 2, String::from("x")), INVALID_ID);
    assert_eq!(store.alter_commody(alice(), u32::MAX, String::from("x")), INVALID_ID);
    assert_eq!(store.get_commody(0), "green");
    assert_eq!(store.get_commody(1), "");
    assert_eq!(store.commody_count(), 1);
}

#[test]
fn add_order_hands_out_the_count() {
    let mut store = CousinTea::new(alice());
    assert_eq!(store.add_order(bob(), String::from("first")), 0);
    assert_eq!(store.order_count(), 1);
    assert_eq!(store.add_order(charlie(), String::from("second")), 1);
    assert_eq!(store.order_count(), 2);
    assert_eq!(store.add_order(alice(), String::from("third")), 2);
    assert_eq!(store.order_count(), 3);
    // each order is recorded against its submitter
    assert_eq!(store.get_order(bob(), 0), "first");
    assert_eq!(store.get_order(charlie(), 1), "second");
    assert_eq!(store.get_order(bob(), 1), "");
}

#[test]
fn owner_reads_any_order() {
    let mut store = CousinTea::new(alice());
    store.add_order(bob(), String::from("bob's order"));
    store.add_order(charlie(), String::from("charlie's order"));
    assert_eq!(store.get_order(alice(), 0), "bob's order");
    assert_eq!(store.get_order(alice(), 1), "charlie's order");
    assert_eq!(store.get_order(alice(), 2), "");
}

#[test]
fn strangers_read_orders_as_empty() {
    let mut store = CousinTea::new(alice());
    store.add_order(bob(), String::from("bob's order"));
    assert_eq!(store.get_order(charlie(), 0), "");
    assert_eq!(store.get_order(charlie(), 7), "");
}

#[test]
fn client_alters_own_order() {
    let mut store = CousinTea::new(alice());
    store.add_order(bob(), String::from("v1"));
    assert_eq!(store.alter_order(bob(), 0, String::from("v2")), OK);
    assert_eq!(store.get_order(bob(), 0), "v2");
    assert_eq!(store.get_order(alice(), 0), "v2");
}

#[test]
fn others_cannot_alter_an_order() {
    let mut store = CousinTea::new(alice());
    store.add_order(bob(), String::from("v1"));
    assert_eq!(store.alter_order(alice(), 0, String::from("by owner")), NOT_AUTHORIZED);
    assert_eq!(store.alter_order(charlie(), 0, String::from("by stranger")), NOT_AUTHORIZED);
    assert_eq!(store.get_order(bob(), 0), "v1");
    assert_eq!(store.get_order(alice(), 0), "v1");
}

#[test]
fn alter_missing_order_is_invalid() {
    let mut store = CousinTea::new(alice());
    assert_eq!(store.alter_order(bob(), 0, String::from("x")), INVALID_ID);
    store.add_order(bob(), String::from("v1"));
    assert_eq!(store.alter_order(bob(), 1, String::from("x")), INVALID_ID);
    assert_eq!(store.alter_order(bob(), u32::MAX, String::from("x")), INVALID_ID);
    assert_eq!(store.get_order(bob(), 0), "v1");
}

#[test]
fn empty_descriptions_are_stored() {
    let mut store = CousinTea::new(alice());
    assert_eq!(store.add_commody(alice(), String::new()), OK);
    assert_eq!(store.get_commody(0), "");
    assert_eq!(store.commody_count(), 1);
    assert_eq!(store.alter_commody(alice(), 0, String::from("now named")), OK);
    assert_eq!(store.get_commody(0), "now named");
}

#[test]
fn identity_comparison() {
    assert!(alice().same_as(&alice()));
    assert!(!alice().same_as(&bob()));
    let mut almost = [1u8; 32];
    almost[31] = 9;
    assert!(!alice().same_as(&AccountId::from_bytes(almost)));
}

#[test]
fn end_to_end_scenario() {
    let owner = alice();
    let x = bob();
    let y = charlie();
    let mut store = CousinTea::new(owner);
    assert_eq!(store.add_commody(owner, String::from("tea A")), 0);
    assert_eq!(store.commody_count(), 1);
    assert_eq!(store.add_order(x, String::from("order json 1")), 0);
    assert_eq!(store.alter_order(x, 0, String::from("order json 1 updated")), 0);
    assert_eq!(store.order_count(), 1);
    assert_eq!(store.get_order(owner, 0), "order json 1 updated");
    assert_eq!(store.get_order(y, 0), "");
}
