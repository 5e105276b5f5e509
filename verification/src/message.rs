//! A minimal message record and its typestate builder.
//!
//! The builder carries two marker type parameters, one per required field.
//! `from` is only offered while the from-slot is unset, `to` while the
//! to-slot is unset, and `build` only once both are set, so an incomplete
//! message cannot be assembled: the offending calls do not exist.

use core::marker::PhantomData;

use vstd::prelude::*;
use vstd::pervasive::unreached;

use crate::address::Address;

verus! {

/// A message: a sender and a recipient, both validated addresses. Only
/// constructible once both fields are supplied; immutable afterwards.
#[derive(Debug)]
pub struct Message {
    pub from: Address,
    pub to: Address,
}

impl Clone for Message {
    /// Cloning keeps both addresses.
    fn clone(&self) -> (r: Self)
        ensures
            r == *self,
    {
        Message { from: self.from.clone(), to: self.to.clone() }
    }
}

/// Marker: the builder slot has been assigned.
#[derive(Debug)]
pub struct Yes;

/// Marker: the builder slot has not been assigned.
#[derive(Debug)]
pub struct No;

/// The assignment states a builder slot ranges over.
pub trait ToAssign {

}

/// The slot is assigned.
pub trait Assigned: ToAssign {

}

/// The slot is not assigned.
pub trait NotAssigned: ToAssign {

}

impl ToAssign for Yes {

}

impl Assigned for Yes {

}

impl ToAssign for No {

}

impl NotAssigned for No {

}

/// A builder for `Message` whose type records which slots are filled:
/// `MessageBuilder<Yes, No>` has a sender and no recipient yet.
pub struct MessageBuilder<FROM: ToAssign, TO: ToAssign> {
    from_marker: PhantomData<FROM>,
    to_marker: PhantomData<TO>,
    from: Option<Address>,
    to: Option<Address>,
}

impl<FROM: ToAssign, TO: ToAssign> MessageBuilder<FROM, TO> {
    /// The sender slot.
    pub closed spec fn spec_from(self) -> Option<Address> {
        self.from
    }

    /// The recipient slot.
    pub closed spec fn spec_to(self) -> Option<Address> {
        self.to
    }
}

/// Starts building a message: both slots empty.
pub fn message_builder() -> (b: MessageBuilder<No, No>)
    ensures
        b.spec_from() is None,
        b.spec_to() is None,
{
    MessageBuilder { from_marker: PhantomData, to_marker: PhantomData, from: None, to: None }
}

impl<TO: ToAssign> MessageBuilder<No, TO> {
    /// Supplies the sender. Offered only while the from-slot is unset; the
    /// builder is consumed, so the slot can never be set twice.
    pub fn from(self, from: Address) -> (b: MessageBuilder<Yes, TO>)
        ensures
            b.spec_from() == Some(from),
            b.spec_to() == self.spec_to(),
    {
        MessageBuilder {
            from_marker: PhantomData,
            to_marker: PhantomData,
            from: Some(from),
            to: self.to,
        }
    }
}

impl<FROM: ToAssign> MessageBuilder<FROM, No> {
    /// Supplies the recipient. Offered only while the to-slot is unset; the
    /// builder is consumed, so the slot can never be set twice.
    pub fn to(self, to: Address) -> (b: MessageBuilder<FROM, Yes>)
        ensures
            b.spec_to() == Some(to),
            b.spec_from() == self.spec_from(),
    {
        MessageBuilder {
            from_marker: PhantomData,
            to_marker: PhantomData,
            from: self.from,
            to: Some(to),
        }
    }
}

impl MessageBuilder<Yes, Yes> {
    /// The message this completed builder describes.
    pub open spec fn spec_message(self) -> Message {
        Message { from: self.spec_from()->0, to: self.spec_to()->0 }
    }

    /// Finishes construction. Offered only once both slots are set.
    pub fn build(&self) -> (m: Message)
        requires
            self.spec_from() is Some,
            self.spec_to() is Some,
        ensures
            m == self.spec_message(),
    {
        let from = match &self.from {
            Some(a) => a.clone(),
            None => unreached(),
        };
        let to = match &self.to {
            Some(a) => a.clone(),
            None => unreached(),
        };
        Message { from, to }
    }
}

/// Law: a builder sequence that sets the sender to `from`, then the
/// recipient to `to`, and then builds, yields a message carrying exactly
/// `from` and `to`. The hypotheses are precisely what `message_builder`,
/// `from`, `to` and `build` ensure of the intermediate values, so every such
/// call sequence satisfies them.
pub proof fn lemma_build_carries_set_fields(
    b1: MessageBuilder<Yes, No>,
    b2: MessageBuilder<Yes, Yes>,
    from: Address,
    to: Address,
    m: Message,
)
    requires
        b1.spec_from() == Some(from),
        b2.spec_from() == b1.spec_from(),
        b2.spec_to() == Some(to),
        m == b2.spec_message(),
    ensures
        m.from == from,
        m.to == to,
{
}

} // verus!
