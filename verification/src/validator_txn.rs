//! The consensus message envelope: a thin tagged payload wrapper and the
//! routing topics it is dispatched under.

use vstd::prelude::*;

verus! {

/// An issuer identifier, as raw bytes.
pub type Issuer = Vec<u8>;

#[derive(Clone, Debug, Eq, PartialEq)]
pub struct DummyValidatorTransaction {
    pub payload: Vec<u8>,
}

#[derive(Clone, Debug, Eq, PartialEq)]
pub enum ValidatorTransaction {
    DummyTopic1(DummyValidatorTransaction),
    DummyTopic2(DummyValidatorTransaction),
}

impl ValidatorTransaction {
    pub fn dummy1(payload: Vec<u8>) -> (r: Self)
        ensures
            r matches ValidatorTransaction::DummyTopic1(d) && d.payload@ == payload@,
    {
        Self::DummyTopic1(DummyValidatorTransaction { payload })
    }

    pub fn dummy2(payload: Vec<u8>) -> (r: Self)
        ensures
            r matches ValidatorTransaction::DummyTopic2(d) && d.payload@ == payload@,
    {
        Self::DummyTopic2(DummyValidatorTransaction { payload })
    }

    /// The payload carried under either topic.
    pub open spec fn spec_payload(&self) -> Seq<u8> {
        match self {
            ValidatorTransaction::DummyTopic1(d) => d.payload@,
            ValidatorTransaction::DummyTopic2(d) => d.payload@,
        }
    }

    /// The length of the canonical encoding: one tag byte, a four-byte length
    /// prefix, and the payload itself.
    pub fn size_in_bytes(&self) -> (r: usize)
        requires
            self.spec_payload().len() + 5 <= usize::MAX,
        ensures
            r == self.spec_payload().len() + 5,
    {
        match self {
            ValidatorTransaction::DummyTopic1(d) => d.payload.len() + 5,
            ValidatorTransaction::DummyTopic2(d) => d.payload.len() + 5,
        }
    }
}

/// The routing topics that tagged payloads are dispatched under.
#[allow(non_camel_case_types)]
#[derive(Clone, Eq, Hash, PartialEq)]
pub enum Topic {
    DKG,
    JWK_CONSENSUS(Issuer),
    DUMMY1,
    DUMMY2,
}

} // verus!
