//! The metadata surface: ten fixed, named lookups, each translating to a fixed
//! native lookup key string. A value the engine does not set resolves to an
//! empty string, never to a failure.

use vstd::prelude::*;

verus! {

/// A named metadata lookup. No instance state; purely a translation table
/// from the name to the fixed key string the native layer understands.
#[derive(Debug, Clone, Copy, PartialEq, Eq, Structural)]
pub enum MetadataName {
    Format,
    Encryption,
    Author,
    Title,
    Producer,
    Creator,
    CreationDate,
    ModDate,
    Subject,
    Keywords,
}

impl MetadataName {
    /// The fixed native lookup key for this name.
    pub open spec fn key(self) -> Seq<char> {
        match self {
            MetadataName::Format => "format"@,
            MetadataName::Encryption => "encryption"@,
            MetadataName::Author => "info:Author"@,
            MetadataName::Title => "info::Title"@,
            MetadataName::Producer => "info:Producer"@,
            MetadataName::Creator => "info:Creator"@,
            MetadataName::CreationDate => "info:CreationDate"@,
            MetadataName::ModDate => "info:ModDate"@,
            MetadataName::Subject => "info:Subject"@,
            MetadataName::Keywords => "info:Keywords"@,
        }
    }

    /// Translates this name to the native lookup key.
    pub fn to_str(&self) -> (r: &'static str)
        ensures
            r@ == self.key(),
    {
        match *self {
            MetadataName::Format => "format",
            MetadataName::Encryption => "encryption",
            MetadataName::Author => "info:Author",
            MetadataName::Title => "info::Title",
            MetadataName::Producer => "info:Producer",
            MetadataName::Creator => "info:Creator",
            MetadataName::CreationDate => "info:CreationDate",
            MetadataName::ModDate => "info:ModDate",
            MetadataName::Subject => "info:Subject",
            MetadataName::Keywords => "info:Keywords",
        }
    }
}

/// Resolves a raw lookup result to the caller-visible metadata value: a value
/// the engine reported is passed through, a structurally absent one resolves
/// to the empty string. Absence is soft, never a failure.
pub fn metadata_value(raw: Option<String>) -> (r: String)
    ensures
        raw is Some ==> r@ == raw->0@,
        raw is None ==> r@ =~= Seq::<char>::empty(),
{
    match raw {
        Some(value) => value,
        None => String::new(),
    }
}

} // verus!
