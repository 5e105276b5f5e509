use brief::address::Address;
use brief::message::message_builder;

#[test]
fn builds_a_message_once_both_fields_are_set() {
    let from = Address::try_new("sender", "domain.com").unwrap();
    let to = Address::try_new("recipient", "domain.com").unwrap();

    let message = message_builder().from(from.clone()).to(to.clone()).build();

    assert_eq!(message.from, from);
    assert_eq!(message.to, to);
}

#[test]
fn sets_the_fields_in_either_order() {
    let from = Address::try_new("sender", "domain.com").unwrap();
    let to = Address::try_new("recipient", "domain.com").unwrap();

    let message = message_builder().to(to.clone()).from(from.clone()).build();

    assert_eq!(message.from, from);
    assert_eq!(message.to, to);
}

#[test]
fn a_built_message_keeps_its_addresses_when_cloned() {
    let from = Address::try_new("sender", "domain.com").unwrap();
    let to = Address::try_new("recipient", "domain.com").unwrap();

    let message = message_builder().from(from).to(to).build();
    let copy = message.clone();

    assert_eq!(copy.from, message.from);
    assert_eq!(copy.to, message.to);
}
