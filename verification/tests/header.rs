use brief::header::Header;
use brief::mailbox::Mailbox;

#[test]
fn a_return_path_header_is_named_return_path() {
    let mailbox = Mailbox::parse("name <user@domain.com>").unwrap();
    let header = Header::ReturnPath(mailbox);
    assert_eq!(header.name(), "Return-Path");
}

#[test]
fn a_return_path_body_wraps_the_address_in_angle_brackets() {
    let mailbox = Mailbox::parse("name <user@domain.com>").unwrap();
    let header = Header::ReturnPath(mailbox);
    assert_eq!(header.body(), "<user@domain.com>");
}

#[test]
fn a_header_line_is_name_colon_body() {
    let mailbox = Mailbox::parse("<user@domain.com>").unwrap();
    let header = Header::ReturnPath(mailbox);
    assert_eq!(header.to_text(), "Return-Path: <user@domain.com>");
}
