use vstd::prelude::*;
use vstd::utf8::{encode_utf8, encode_utf8_decode_utf8};

verus! {

/// Lowest rating a review may be created with.
pub const MIN_RATING: u8 = 1;

/// Highest rating a review may be created with.
pub const MAX_RATING: u8 = 5;

/// Longest title, in bytes of UTF-8.
pub const MAX_TITLE_LENGTH: usize = 20;

/// Longest description a review may be created with, in bytes of UTF-8.
pub const MAX_DESCRIPTION_LENGTH: usize = 50;

/// Bytes of the marker that precedes every stored record.
pub const DISCRIMINATOR: usize = 8;

/// Bytes of an identity.
pub const IDENTITY_LENGTH: usize = 32;

/// Bytes of the length that precedes a stored text.
pub const LENGTH_PREFIX: usize = 4;

/// Who wrote a review: an opaque identity of fixed size, such as a public key.
#[derive(Clone, Copy, Debug, Eq)]
pub struct Identity {
    pub bytes: [u8; 32],
}

impl PartialEq for Identity {
    fn eq(&self, other: &Self) -> (same: bool) {
        let mut i: usize = 0;
        while i < 32
            invariant
                i <= 32,
                forall|j: int| 0 <= j < i ==> self.bytes[j] == other.bytes[j],
            decreases 32 - i,
        {
            if self.bytes[i] != other.bytes[i] {
                return false;
            }
            i += 1;
        }
        assert(self.bytes =~= other.bytes);
        true
    }
}

impl vstd::std_specs::cmp::PartialEqSpecImpl for Identity {
    open spec fn obeys_eq_spec() -> bool {
        true
    }

    open spec fn eq_spec(&self, other: &Self) -> bool {
        *self == *other
    }
}

/// Number of bytes that a text takes in UTF-8.
pub open spec fn byte_len(text: Seq<char>) -> nat {
    encode_utf8(text).len()
}

/// Length of a text in bytes of UTF-8.
pub fn text_len(text: &str) -> (n: usize)
    ensures
        n == byte_len(text@),
{
    text.as_bytes().len()
}

/// Whether two texts are the same, character for character.
pub fn same_text(a: &str, b: &str) -> (same: bool)
    ensures
        same == (a@ == b@),
{
    let x = a.as_bytes();
    let y = b.as_bytes();
    proof {
        // Texts with the same bytes are the same texts.
        encode_utf8_decode_utf8(a@);
        encode_utf8_decode_utf8(b@);
    }
    if x.len() != y.len() {
        return false;
    }
    let mut i: usize = 0;
    while i < x.len()
        invariant
            i <= x.len(),
            x.len() == y.len(),
            x@ == encode_utf8(a@),
            y@ == encode_utf8(b@),
            forall|j: int| 0 <= j < i ==> x@[j] == y@[j],
        decreases x.len() - i,
    {
        if x[i] != y[i] {
            return false;
        }
        i += 1;
    }
    assert(x@ =~= y@);
    true
}

/// A review as the contracts see it: its texts are sequences of characters.
pub struct Review {
    pub reviewer: Identity,
    pub rating: u8,
    pub title: Seq<char>,
    pub description: Seq<char>,
}

impl Review {
    /// Bytes that the review takes as it stands: the marker, the author, the rating, and
    /// each text behind its length.
    pub open spec fn packed_len(self) -> nat {
        (DISCRIMINATOR + IDENTITY_LENGTH + 1 + LENGTH_PREFIX + LENGTH_PREFIX) as nat + byte_len(
            self.title,
        ) + byte_len(self.description)
    }
}

/// The stored form of a review.
#[derive(Debug, Eq)]
pub struct MovieAccountState {
    pub reviewer: Identity,
    pub rating: u8,
    pub title: String,
    pub description: String,
}

impl View for MovieAccountState {
    type V = Review;

    open spec fn view(&self) -> Review {
        Review {
            reviewer: self.reviewer,
            rating: self.rating,
            title: self.title@,
            description: self.description@,
        }
    }
}

impl MovieAccountState {
    /// Bytes that the fields of a record take at their longest: the author, the rating,
    /// and each text at its limit behind its length.
    pub const INIT_SPACE: usize = IDENTITY_LENGTH + 1 + LENGTH_PREFIX + MAX_TITLE_LENGTH
        + LENGTH_PREFIX + MAX_DESCRIPTION_LENGTH;
}

impl PartialEq for MovieAccountState {
    fn eq(&self, other: &Self) -> (same: bool) {
        self.reviewer == other.reviewer && self.rating == other.rating && self.title
            == other.title && self.description == other.description
    }
}

impl vstd::std_specs::cmp::PartialEqSpecImpl for MovieAccountState {
    open spec fn obeys_eq_spec() -> bool {
        true
    }

    open spec fn eq_spec(&self, other: &Self) -> bool {
        self@ == other@
    }
}

impl Clone for MovieAccountState {
    fn clone(&self) -> (copy: Self)
        ensures
            copy == *self,
    {
        MovieAccountState {
            reviewer: self.reviewer,
            rating: self.rating,
            title: self.title.clone(),
            description: self.description.clone(),
        }
    }
}

impl Default for MovieAccountState {
    /// A record that nothing was written to yet: zero bytes and empty texts.
    fn default() -> (blank: Self)
        ensures
            forall|i: int| 0 <= i < 32 ==> blank.reviewer.bytes[i] == 0,
            blank.rating == 0,
            blank.title@ == Seq::<char>::empty(),
            blank.description@ == Seq::<char>::empty(),
    {
        MovieAccountState {
            reviewer: Identity { bytes: [0u8; 32] },
            rating: 0,
            title: String::new(),
            description: String::new(),
        }
    }
}

/// Bytes reserved for a record when it is created: the marker and every field at its
/// longest, whatever the texts' lengths are.
pub open spec fn initial_space() -> nat {
    (DISCRIMINATOR + MovieAccountState::INIT_SPACE) as nat
}

/// Bytes that a record takes once its description is known: the marker, the fields of
/// fixed size, the title at its limit, and the description as long as it is.
pub open spec fn fitted_space(description: Seq<char>) -> nat {
    (DISCRIMINATOR + IDENTITY_LENGTH + 1 + LENGTH_PREFIX + MAX_TITLE_LENGTH + LENGTH_PREFIX) as nat
        + byte_len(description)
}

} // verus!
