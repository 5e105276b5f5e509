use brief::address::Address;
use brief::address::ParseAddressError;
use brief::mailbox::Mailbox;
use brief::mailbox::ParseMailboxError;
use brief::validate::InvalidPartError;

#[test]
fn it_creates_a_mailbox() {
    let mailbox = Mailbox::try_new(Some("name"), Address::parse("user@domain.com").unwrap());
    assert!(mailbox.is_ok());
}

#[test]
fn it_creates_a_mailbox_when_name_is_empty() {
    let mailbox = Mailbox::try_new(None, Address::parse("user@domain.com").unwrap());
    assert!(mailbox.is_ok());
}

#[test]
fn it_creates_a_mailbox_from_a_string_with_a_valid_name_and_address() {
    let mailbox = Mailbox::parse("name <user@domain.com>");
    assert!(mailbox.is_ok());
}

#[test]
fn it_creates_a_mailbox_from_a_string_with_an_address() {
    let mailbox = Mailbox::parse("<user@domain.com>");
    assert!(mailbox.is_ok());
}

#[test]
fn it_fails_when_the_brackets_are_invali() {
    let cases = [
        Mailbox::parse("user user@domain.com>").is_err(),
        Mailbox::parse("user <user@domain.com").is_err(),
        Mailbox::parse("user user@domain.com").is_err(),
        Mailbox::parse("user >user@domain.com<").is_err(),
        Mailbox::parse("user@domain.com>").is_err(),
        Mailbox::parse("<user@domain.com").is_err(),
        Mailbox::parse("user@domain.com").is_err(),
        Mailbox::parse(">user@domain.com<").is_err(),
    ];

    assert!(cases.iter().any(|c| *c))
}

#[test]
fn parses_a_mailbox_with_a_display_name() {
    let mailbox = Mailbox::parse("My Name <user@domain.com>").unwrap();
    assert_eq!(mailbox.name.as_deref(), Some("My Name"));
    assert_eq!(mailbox.address.user(), "user");
    assert_eq!(mailbox.address.domain(), "domain.com");
}

#[test]
fn parses_a_mailbox_without_a_display_name() {
    let mailbox = Mailbox::parse("<user@domain.com>").unwrap();
    assert_eq!(mailbox.name, None);
    assert_eq!(mailbox.address.user(), "user");
    assert_eq!(mailbox.address.domain(), "domain.com");
}

#[test]
fn reports_each_bracket_failure_with_its_own_variant() {
    assert_eq!(
        Mailbox::parse("user <user@domain.com"),
        Err(ParseMailboxError::MissingClosingAngleBracket)
    );
    assert_eq!(
        Mailbox::parse("user user@domain.com>"),
        Err(ParseMailboxError::MissingOpeningAngleBracket)
    );
    assert_eq!(
        Mailbox::parse("user user@domain.com"),
        Err(ParseMailboxError::MissingAngleBrackets)
    );
    assert_eq!(
        Mailbox::parse("user >user@domain.com<"),
        Err(ParseMailboxError::InvalidOrderOfAngleBrackets)
    );
}

#[test]
fn reports_an_invalid_display_name() {
    assert_eq!(
        Mailbox::parse("a,b <user@domain.com>"),
        Err(ParseMailboxError::InvalidName(
            InvalidPartError::ContainsForbiddenCharacter(',')
        ))
    );
}

#[test]
fn reports_an_invalid_interior_address() {
    assert_eq!(
        Mailbox::parse("name <userdomain.com>"),
        Err(ParseMailboxError::InvalidAddress(
            ParseAddressError::MissingUserOrDomain
        ))
    );
    assert_eq!(
        Mailbox::parse("<@domain.com>"),
        Err(ParseMailboxError::InvalidAddress(
            ParseAddressError::InvalidUser(InvalidPartError::IsEmpty)
        ))
    );
}

#[test]
fn rejects_an_invalid_name_in_direct_construction() {
    let address = Address::parse("user@domain.com").unwrap();
    assert_eq!(
        Mailbox::try_new(Some("a(b"), address),
        Err(ParseMailboxError::InvalidName(
            InvalidPartError::ContainsForbiddenCharacter('(')
        ))
    );
}

#[test]
fn wraps_an_address_error_as_an_invalid_address() {
    let err = Address::parse("nodomain").unwrap_err();
    assert_eq!(
        ParseMailboxError::from(err),
        ParseMailboxError::InvalidAddress(ParseAddressError::MissingUserOrDomain)
    );
}

#[test]
fn trims_surrounding_whitespace_before_parsing() {
    let mailbox = Mailbox::parse("  name <user@domain.com>  \t").unwrap();
    assert_eq!(mailbox.name.as_deref(), Some("name"));
    assert_eq!(mailbox.address.user(), "user");
}

#[test]
fn trims_the_display_name() {
    let mailbox = Mailbox::parse("name   <user@domain.com>").unwrap();
    assert_eq!(mailbox.name.as_deref(), Some("name"));
}

#[test]
fn renders_with_and_without_a_display_name() {
    let named = Mailbox::parse("name <user@domain.com>").unwrap();
    assert_eq!(named.to_text(), "name <user@domain.com>");

    let unnamed = Mailbox::parse("<user@domain.com>").unwrap();
    assert_eq!(unnamed.to_text(), "<user@domain.com>");
}

#[test]
fn a_mailbox_round_trips_through_its_textual_form() {
    let mailbox = Mailbox::parse("name <user@domain.com>").unwrap();
    let reparsed = Mailbox::parse(&mailbox.to_text()).unwrap();
    assert_eq!(reparsed, mailbox);
}
