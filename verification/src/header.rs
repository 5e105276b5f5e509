//! Message headers: a closed set of header kinds, each with a fixed
//! canonical name and a renderer for its body.
//!
//! The set currently has one member, `Return-Path`, which carries a mailbox
//! and renders its address wrapped in angle brackets.

use vstd::prelude::*;
use vstd::string::*;

use crate::address::addr_text;
use crate::mailbox::Mailbox;

verus! {

/// A message header. Adding a kind means adding a variant together with its
/// name and body rendering: the set is closed and matched exhaustively.
pub enum Header {
    /// The `Return-Path` header: the address to which delivery problems are
    /// to be reported, carried as a mailbox.
    ReturnPath(Mailbox),
}

impl Header {
    /// The canonical name of the header.
    pub open spec fn spec_name(self) -> Seq<char> {
        match self {
            Header::ReturnPath(_) => "Return-Path"@,
        }
    }

    /// The rendered body of the header: the carried address wrapped in angle
    /// brackets.
    pub open spec fn spec_body(self) -> Seq<char> {
        match self {
            Header::ReturnPath(m) => seq!['<'] + addr_text(m@.address) + seq!['>'],
        }
    }

    /// The rendered header line: `Name: body`.
    pub open spec fn spec_text(self) -> Seq<char> {
        self.spec_name() + ": "@ + self.spec_body()
    }

    /// Returns the canonical name of the header.
    pub fn name(&self) -> (r: String)
        ensures
            r@ == self.spec_name(),
    {
        match self {
            Header::ReturnPath(_) => String::from_str("Return-Path"),
        }
    }

    /// Renders the body of the header.
    pub fn body(&self) -> (r: String)
        ensures
            r@ == self.spec_body(),
    {
        match self {
            Header::ReturnPath(m) => {
                let mut out = String::from_str("<");
                let addr = m.address.to_text();
                out.append(addr.as_str());
                out.append(">");
                proof {
                    reveal_strlit("<");
                    reveal_strlit(">");
                    assert("<"@ =~= seq!['<']);
                    assert(">"@ =~= seq!['>']);
                    assert(out@ =~= self.spec_body());
                }
                out
            },
        }
    }

    /// Renders the whole header line: `Name: body`.
    pub fn to_text(&self) -> (r: String)
        ensures
            r@ == self.spec_text(),
    {
        let mut out = self.name();
        out.append(": ");
        let b = self.body();
        out.append(b.as_str());
        out
    }
}

} // verus!
