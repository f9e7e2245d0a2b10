//! Why a piece of text was refused as a domain value.

use vstd::prelude::*;

verus! {

/// The rule that a rejected input broke.
#[derive(Clone, Copy, Debug, PartialEq, Eq, Structural)]
pub enum ValidationError {
    /// The name is empty or holds nothing but whitespace.
    EmptyName,
    /// The name has more grapheme clusters than a name may have.
    NameTooLong,
    /// The name holds a character that no name may hold.
    ForbiddenCharacter,
    /// The text is not an email address.
    MalformedEmail,
}

} // verus!
