//! How the upstream client addresses entities, and the envelope shapes of
//! its responses.

use vstd::prelude::*;

use crate::text::{dec_of, u64_to_decimal};

verus! {

/// How a chain entity is addressed in an upstream request: by well-known
/// name, by slot number, or by root.
#[derive(Clone, Debug)]
pub enum Identifier {
    Head,
    Genesis,
    Finalized,
    Justified,
    Slot(u64),
    Root(String),
}

impl Identifier {
    /// The identifier as it appears in a request path.
    pub open spec fn text_spec(self) -> Seq<char> {
        match self {
            Identifier::Head => "head"@,
            Identifier::Genesis => "genesis"@,
            Identifier::Finalized => "finalized"@,
            Identifier::Justified => "justified"@,
            Identifier::Slot(slot) => dec_of(slot as nat),
            Identifier::Root(root) => root@,
        }
    }

    /// Renders the identifier as it appears in a request path.
    pub fn to_text(&self) -> (r: String)
        ensures
            r@ == self.text_spec(),
    {
        match self {
            Identifier::Head => String::from_str("head"),
            Identifier::Genesis => String::from_str("genesis"),
            Identifier::Finalized => String::from_str("finalized"),
            Identifier::Justified => String::from_str("justified"),
            Identifier::Slot(slot) => u64_to_decimal(*slot),
            Identifier::Root(root) => root.clone(),
        }
    }
}

/// The envelope every upstream response arrives in.
#[derive(Clone, Debug)]
pub struct ResponseData<T> {
    pub data: T,
}

/// A response that carries a single root.
#[derive(Clone, Debug)]
pub struct Root {
    pub root: String,
}

} // verus!
