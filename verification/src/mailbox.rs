//! Mailboxes: an address together with an optional display name, written
//! `name <user@domain>`.
//!
//! Parsing trims the input, then classifies it by the positions of the first
//! `<` and the first `>`: both angle brackets are mandatory and must come in
//! order. The text before the first `<` becomes the display name once
//! trimmed, if anything is left of it; the text between the brackets is
//! parsed as an address.

use vstd::prelude::*;
use vstd::string::*;

use crate::address::addr_text;
use crate::address::addr_check;
use crate::address::Address;
use crate::address::AddressView;
use crate::address::ParseAddressError;
use crate::text::char_at_first;
use crate::text::find_char;
use crate::text::lemma_char_at_first_unique;
use crate::text::seq_contains_char;
use crate::text::spec_trim;
use crate::text::trim_str;
use crate::validate::lemma_part_check_ok_iff_valid;
use crate::validate::part_check;
use crate::validate::valid_part;
use crate::validate::validate_part;
use crate::validate::InvalidPartError;

verus! {

/// The reason a string is rejected as a mailbox.
#[derive(Debug, Clone, Copy, PartialEq, Eq)]
pub enum ParseMailboxError {
    MissingAngleBrackets,
    MissingOpeningAngleBracket,
    MissingClosingAngleBracket,
    InvalidOrderOfAngleBrackets,
    InvalidName(InvalidPartError),
    InvalidAddress(ParseAddressError),
}

impl From<ParseAddressError> for ParseMailboxError {
    /// An address error, seen from the mailbox parser, is an invalid
    /// interior address.
    fn from(value: ParseAddressError) -> (r: Self)
        ensures
            r == ParseMailboxError::InvalidAddress(value),
    {
        ParseMailboxError::InvalidAddress(value)
    }
}

impl vstd::std_specs::convert::FromSpecImpl<ParseAddressError> for ParseMailboxError {
    open spec fn obeys_from_spec() -> bool {
        true
    }

    open spec fn from_spec(value: ParseAddressError) -> Self {
        ParseMailboxError::InvalidAddress(value)
    }
}

/// The mathematical content of a mailbox: the optional display name and the
/// address, as character sequences.
pub ghost struct MailboxView {
    pub name: Option<Seq<char>>,
    pub address: AddressView,
}

/// A mailbox: an address and an optional display name.
#[derive(Debug, PartialEq, Eq, PartialOrd, Ord, Hash)]
pub struct Mailbox {
    pub name: Option<String>,
    pub address: Address,
}

impl Clone for Mailbox {
    /// Cloning keeps the display name and the address.
    fn clone(&self) -> (r: Self)
        ensures
            r == *self,
    {
        Mailbox {
            name: match &self.name {
                Some(n) => Some(n.clone()),
                None => None,
            },
            address: self.address.clone(),
        }
    }
}

impl View for Mailbox {
    type V = MailboxView;

    open spec fn view(&self) -> MailboxView {
        MailboxView {
            name: match self.name {
                Some(n) => Some(n@),
                None => None,
            },
            address: self.address@,
        }
    }
}

/// The exact outcome of parsing a mailbox from text: the input is trimmed,
/// the first `<` and first `>` classify it, the trimmed prefix (if any is
/// left) is validated as the display name, and the bracket interior is
/// parsed as an address.
pub open spec fn mailbox_check(s: Seq<char>) -> Result<MailboxView, ParseMailboxError> {
    let t = spec_trim(s);
    if !seq_contains_char(t, '<') && !seq_contains_char(t, '>') {
        Err(ParseMailboxError::MissingAngleBrackets)
    } else if !seq_contains_char(t, '<') {
        Err(ParseMailboxError::MissingOpeningAngleBracket)
    } else if !seq_contains_char(t, '>') {
        Err(ParseMailboxError::MissingClosingAngleBracket)
    } else {
        let l = choose|i: int| char_at_first(t, '<', i);
        let g = choose|i: int| char_at_first(t, '>', i);
        if l > g {
            Err(ParseMailboxError::InvalidOrderOfAngleBrackets)
        } else {
            let name = spec_trim(t.subrange(0, l));
            let interior = t.subrange(l + 1, g);
            if name.len() != 0 && part_check(name) is Err {
                Err(ParseMailboxError::InvalidName(part_check(name)->Err_0))
            } else {
                match addr_check(interior) {
                    Ok(a) => Ok(
                        MailboxView {
                            name: if name.len() == 0 {
                                None
                            } else {
                                Some(name)
                            },
                            address: a,
                        },
                    ),
                    Err(e) => Err(ParseMailboxError::InvalidAddress(e)),
                }
            }
        }
    }
}

/// The textual form of a mailbox: `name <user@domain>` with a name,
/// `<user@domain>` without one.
pub open spec fn mailbox_text(m: MailboxView) -> Seq<char> {
    match m.name {
        Some(n) => n + seq![' ', '<'] + addr_text(m.address) + seq!['>'],
        None => seq!['<'] + addr_text(m.address) + seq!['>'],
    }
}

impl Mailbox {
    /// The display name, if present, passes part validation, and the address
    /// is well formed.
    pub open spec fn wf(self) -> bool {
        &&& match self@.name {
            Some(n) => valid_part(n),
            None => true,
        }
        &&& self.address.wf()
    }

    /// Creates a mailbox from an optional display name and an address,
    /// validating only the name: the address is taken as already valid, so
    /// `InvalidAddress` cannot arise here.
    pub fn try_new(name: Option<&str>, address: Address) -> (r: Result<Self, ParseMailboxError>)
        requires
            address.wf(),
        ensures
            match r {
                Ok(m) => m.wf() && m@.address == address@ && (match name {
                    Some(n) => part_check(n@) is Ok && m@.name == Some(n@),
                    None => m@.name is None,
                }),
                Err(ParseMailboxError::InvalidName(e)) => name matches Some(n) && part_check(n@)
                    == Err::<(), InvalidPartError>(e),
                _ => false,
            },
    {
        let owned_name: Option<String> = match name {
            Some(n) => {
                match validate_part(n) {
                    Err(e) => return Err(ParseMailboxError::InvalidName(e)),
                    Ok(()) => {},
                }
                proof {
                    lemma_part_check_ok_iff_valid(n@);
                }
                Some(n.to_owned())
            },
            None => None,
        };
        Ok(Mailbox { name: owned_name, address })
    }

    /// Parses a mailbox from text.
    pub fn parse(s: &str) -> (r: Result<Self, ParseMailboxError>)
        ensures
            match r {
                Ok(m) => mailbox_check(s@) == Ok::<MailboxView, ParseMailboxError>(m@) && m.wf(),
                Err(e) => mailbox_check(s@) == Err::<MailboxView, ParseMailboxError>(e),
            },
    {
        let t = trim_str(s);
        let lt = find_char(t, '<');
        let gt = find_char(t, '>');
        match (lt, gt) {
            (None, None) => Err(ParseMailboxError::MissingAngleBrackets),
            (None, Some(_)) => Err(ParseMailboxError::MissingOpeningAngleBracket),
            (Some(_), None) => Err(ParseMailboxError::MissingClosingAngleBracket),
            (Some(l), Some(g)) => {
                proof {
                    lemma_char_at_first_unique(
                        t@,
                        '<',
                        l as int,
                        choose|k: int| char_at_first(t@, '<', k),
                    );
                    lemma_char_at_first_unique(
                        t@,
                        '>',
                        g as int,
                        choose|k: int| char_at_first(t@, '>', k),
                    );
                }
                if l > g {
                    Err(ParseMailboxError::InvalidOrderOfAngleBrackets)
                } else {
                    let prefix = t.substring_char(0, l);
                    let name_str = trim_str(prefix);
                    let interior = t.substring_char(l + 1, g);
                    let name: Option<String> = if name_str.unicode_len() > 0 {
                        match validate_part(name_str) {
                            Err(e) => return Err(ParseMailboxError::InvalidName(e)),
                            Ok(()) => {},
                        }
                        proof {
                            lemma_part_check_ok_iff_valid(name_str@);
                        }
                        Some(name_str.to_owned())
                    } else {
                        None
                    };
                    match Address::parse(interior) {
                        Ok(address) => Ok(Mailbox { name, address }),
                        Err(e) => Err(ParseMailboxError::InvalidAddress(e)),
                    }
                }
            },
        }
    }

    /// Renders the mailbox as `name <user@domain>`, or `<user@domain>` when
    /// no display name is present.
    pub fn to_text(&self) -> (r: String)
        ensures
            r@ == mailbox_text(self@),
    {
        let mut out: String = match &self.name {
            Some(n) => {
                let mut o = n.clone();
                o.append(" <");
                o
            },
            None => String::from_str("<"),
        };
        let addr = self.address.to_text();
        out.append(addr.as_str());
        out.append(">");
        proof {
            reveal_strlit(" <");
            reveal_strlit("<");
            reveal_strlit(">");
            assert(" <"@ =~= seq![' ', '<']);
            assert("<"@ =~= seq!['<']);
            assert(">"@ =~= seq!['>']);
            assert(out@ =~= mailbox_text(self@));
        }
        out
    }
}

} // verus!
