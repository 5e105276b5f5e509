//! Electronic-mail addresses: a validated `user@domain` pair.
//!
//! An address is split on the rightmost `@`; the user is everything before
//! it and the domain everything after. Both parts must pass part validation,
//! and a valid part can never itself contain `@`, so the split is unambiguous.

use vstd::prelude::*;
use vstd::string::*;

use crate::text::char_at_last;
use crate::text::lemma_char_at_last_unique;
use crate::text::rfind_char;
use crate::text::seq_contains_char;
use crate::validate::lemma_part_check_ok_iff_valid;
use crate::validate::part_check;
use crate::validate::valid_part;
use crate::validate::validate_part;
use crate::validate::InvalidPartError;

verus! {

/// The reason a string is rejected as an address.
#[derive(Debug, Clone, Copy, PartialEq, Eq)]
pub enum ParseAddressError {
    MissingUserOrDomain,
    InvalidUser(InvalidPartError),
    InvalidDomain(InvalidPartError),
}

/// The mathematical content of an address: its two parts as character
/// sequences.
pub ghost struct AddressView {
    pub user: Seq<char>,
    pub domain: Seq<char>,
}

/// A validated address. Values exist only through the validated construction
/// paths, so both parts always satisfy part validation.
#[derive(Debug, PartialEq, Eq, PartialOrd, Ord, Hash)]
pub struct Address {
    user: String,
    domain: String,
}

impl View for Address {
    type V = AddressView;

    closed spec fn view(&self) -> AddressView {
        AddressView { user: self.user@, domain: self.domain@ }
    }
}

impl Clone for Address {
    /// Cloning keeps both parts.
    fn clone(&self) -> (r: Self)
        ensures
            r == *self,
    {
        Address { user: self.user.clone(), domain: self.domain.clone() }
    }
}

/// The textual form of an address: `user@domain`.
pub open spec fn addr_text(a: AddressView) -> Seq<char> {
    a.user + seq!['@'] + a.domain
}

/// The exact outcome of parsing an address from text: without any `@` the
/// string is rejected outright; otherwise it splits at the rightmost `@`,
/// and the user part is checked before the domain part.
pub open spec fn addr_check(s: Seq<char>) -> Result<AddressView, ParseAddressError> {
    if !seq_contains_char(s, '@') {
        Err(ParseAddressError::MissingUserOrDomain)
    } else {
        let i = choose|i: int| char_at_last(s, '@', i);
        let user = s.subrange(0, i);
        let domain = s.subrange(i + 1, s.len() as int);
        if part_check(user) is Err {
            Err(ParseAddressError::InvalidUser(part_check(user)->Err_0))
        } else if part_check(domain) is Err {
            Err(ParseAddressError::InvalidDomain(part_check(domain)->Err_0))
        } else {
            Ok(AddressView { user, domain })
        }
    }
}

impl Address {
    /// Both stored parts pass part validation.
    pub open spec fn wf(self) -> bool {
        valid_part(self@.user) && valid_part(self@.domain)
    }

    /// Creates an address from a user and a domain, validating each. The
    /// user is checked first; no splitting happens, so `MissingUserOrDomain`
    /// cannot arise here.
    pub fn try_new(user: &str, domain: &str) -> (r: Result<Self, ParseAddressError>)
        ensures
            match r {
                Ok(a) => part_check(user@) is Ok && part_check(domain@) is Ok && a@ == (AddressView {
                    user: user@,
                    domain: domain@,
                }) && a.wf(),
                Err(ParseAddressError::InvalidUser(e)) => part_check(user@) == Err::<
                    (),
                    InvalidPartError,
                >(e),
                Err(ParseAddressError::InvalidDomain(e)) => part_check(user@) is Ok && part_check(
                    domain@,
                ) == Err::<(), InvalidPartError>(e),
                Err(ParseAddressError::MissingUserOrDomain) => false,
            },
    {
        match validate_part(user) {
            Err(e) => return Err(ParseAddressError::InvalidUser(e)),
            Ok(()) => {},
        }
        match validate_part(domain) {
            Err(e) => return Err(ParseAddressError::InvalidDomain(e)),
            Ok(()) => {},
        }
        proof {
            lemma_part_check_ok_iff_valid(user@);
            lemma_part_check_ok_iff_valid(domain@);
        }
        Ok(Address { user: user.to_owned(), domain: domain.to_owned() })
    }

    /// Parses an address from text, splitting at the rightmost `@`.
    pub fn parse(s: &str) -> (r: Result<Self, ParseAddressError>)
        ensures
            match r {
                Ok(a) => addr_check(s@) == Ok::<AddressView, ParseAddressError>(a@) && a.wf(),
                Err(e) => addr_check(s@) == Err::<AddressView, ParseAddressError>(e),
            },
    {
        let n = s.unicode_len();
        match rfind_char(s, '@') {
            None => Err(ParseAddressError::MissingUserOrDomain),
            Some(i) => {
                proof {
                    lemma_char_at_last_unique(
                        s@,
                        '@',
                        i as int,
                        choose|k: int| char_at_last(s@, '@', k),
                    );
                }
                let user_str = s.substring_char(0, i);
                let domain_str = s.substring_char(i + 1, n);
                match validate_part(user_str) {
                    Err(e) => return Err(ParseAddressError::InvalidUser(e)),
                    Ok(()) => {},
                }
                match validate_part(domain_str) {
                    Err(e) => return Err(ParseAddressError::InvalidDomain(e)),
                    Ok(()) => {},
                }
                proof {
                    lemma_part_check_ok_iff_valid(user_str@);
                    lemma_part_check_ok_iff_valid(domain_str@);
                }
                Ok(Address { user: user_str.to_owned(), domain: domain_str.to_owned() })
            },
        }
    }

    /// The user part.
    pub fn user(&self) -> (r: &str)
        ensures
            r@ == self@.user,
    {
        self.user.as_str()
    }

    /// The domain part.
    pub fn domain(&self) -> (r: &str)
        ensures
            r@ == self@.domain,
    {
        self.domain.as_str()
    }

    /// Renders the address as `user@domain`.
    pub fn to_text(&self) -> (r: String)
        ensures
            r@ == addr_text(self@),
    {
        let mut out = self.user.clone();
        out.append("@");
        out.append(self.domain.as_str());
        proof {
            reveal_strlit("@");
            assert("@"@ =~= seq!['@']);
            assert(out@ =~= addr_text(self@));
        }
        out
    }
}

/// Law: the address grammar round-trips. Rendering any two valid parts as
/// `user@domain` and parsing the result back yields exactly those parts.
pub proof fn lemma_address_round_trip(user: Seq<char>, domain: Seq<char>)
    requires
        valid_part(user),
        valid_part(domain),
    ensures
        addr_check(addr_text(AddressView { user, domain })) == Ok::<AddressView, ParseAddressError>(
            AddressView { user, domain },
        ),
{
    let s = addr_text(AddressView { user, domain });
    let ulen = user.len() as int;
    assert(s[ulen] == '@');
    assert forall|j: int| ulen < j < s.len() implies s[j] != '@' by {
        assert(s[j] == domain[j - ulen - 1]);
        assert(!crate::validate::is_forbidden_char(domain[j - ulen - 1]));
    }
    assert(char_at_last(s, '@', ulen));
    assert(seq_contains_char(s, '@'));
    let i = choose|i: int| char_at_last(s, '@', i);
    lemma_char_at_last_unique(s, '@', i, ulen);
    assert(s.subrange(0, ulen) =~= user);
    assert(s.subrange(ulen + 1, s.len() as int) =~= domain);
    lemma_part_check_ok_iff_valid(user);
    lemma_part_check_ok_iff_valid(domain);
}

} // verus!
