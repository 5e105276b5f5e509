use brief::validate::validate_part;
use brief::validate::InvalidPartError;

#[test]
fn validates_an_ordinary_token() {
    assert_eq!(validate_part("user"), Ok(()));
}

#[test]
fn rejects_an_empty_token() {
    assert_eq!(validate_part(""), Err(InvalidPartError::IsEmpty));
}

#[test]
fn rejects_the_first_non_ascii_character() {
    assert_eq!(
        validate_part("h\u{e9}llo"),
        Err(InvalidPartError::ContainsNonAsciiCharacter('\u{e9}'))
    );
}

#[test]
fn rejects_the_first_forbidden_character() {
    assert_eq!(
        validate_part("a:b;c"),
        Err(InvalidPartError::ContainsForbiddenCharacter(':'))
    );
}

#[test]
fn reports_non_ascii_before_forbidden() {
    // the forbidden '<' comes first in the text, but the non-ASCII scan runs
    // before the forbidden-character scan
    assert_eq!(
        validate_part("<\u{e9}"),
        Err(InvalidPartError::ContainsNonAsciiCharacter('\u{e9}'))
    );
}

#[test]
fn rejects_every_forbidden_character() {
    let forbidden = ['<', '>', '(', ')', '[', ']', '\\', ',', ';', ':', '@', '"'];
    for c in forbidden {
        let token = format!("a{}b", c);
        assert_eq!(
            validate_part(&token),
            Err(InvalidPartError::ContainsForbiddenCharacter(c))
        );
    }
}

#[test]
fn validating_twice_yields_the_same_success() {
    let first = validate_part("user");
    let second = validate_part("user");
    assert_eq!(first, Ok(()));
    assert_eq!(second, first);
}
