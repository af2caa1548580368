//! Entity identifiers.
//!
//! An entity id is the simple (unhyphenated) text form of a version 4 uuid:
//! exactly 32 lowercase hexadecimal digits.  Ids read from the outside world are
//! only accepted in this canonical form, so that two ids name the same entity
//! exactly when their texts are equal.

use vstd::prelude::*;

verus! {

/// Length, in characters, of every entity id.
pub const ID_LENGTH: usize = 32;

/// A lowercase hexadecimal digit.
pub open spec fn is_lower_hex(c: char) -> bool {
    ('0' <= c && c <= '9') || ('a' <= c && c <= 'f')
}

/// The canonical text form of an entity id.
pub open spec fn valid_id_text(s: Seq<char>) -> bool {
    &&& s.len() == ID_LENGTH
    &&& forall|i: int| 0 <= i < s.len() ==> #[trigger] is_lower_hex(s[i])
}

/// Index of the first character of `s` that is not a lowercase hexadecimal digit.
pub open spec fn first_bad_char(s: Seq<char>) -> int
    recommends
        exists|i: int| 0 <= i < s.len() && !is_lower_hex(s[i]),
{
    choose|i: int|
        0 <= i < s.len() && !is_lower_hex(s[i]) && forall|j: int|
            0 <= j < i ==> #[trigger] is_lower_hex(s[j])
}

/// The error reported for a text that is not in canonical form.
pub open spec fn id_error_for(s: Seq<char>) -> IdError {
    if s.len() != ID_LENGTH {
        IdError::InvalidLength(s.len() as usize)
    } else {
        IdError::InvalidCharacter(s[first_bad_char(s)])
    }
}

/// Why a text is not an entity id.
#[derive(Clone, Copy, Debug, PartialEq, Eq, Structural)]
pub enum IdError {
    /// The text does not hold exactly 32 characters (the length it held).
    InvalidLength(usize),
    /// The text holds a character that is not a lowercase hexadecimal digit.
    InvalidCharacter(char),
}

/// An entity id (data storage key).
#[derive(Debug, PartialEq, Eq)]
pub struct Id {
    text: String,
}

impl View for Id {
    type V = Seq<char>;

    closed spec fn view(&self) -> Seq<char> {
        self.text@
    }
}

impl Id {
    #[verifier::type_invariant]
    spec fn well_formed(self) -> bool {
        valid_id_text(self.text@)
    }

    /// Generates a fresh, random id.
    pub fn generate() -> (id: Id)
        ensures
            valid_id_text(id@),
    {
        let text = random_uuid_text();
        Id { text }
    }

    /// Parses a text into an id; the text must already be in canonical form.
    pub fn parse(s: &str) -> (res: Result<Id, IdError>)
        ensures
            match res {
                Ok(id) => valid_id_text(s@) && id@ == s@,
                Err(e) => !valid_id_text(s@) && e == id_error_for(s@),
            },
    {
        let n = s.unicode_len();
        if n != ID_LENGTH {
            return Err(IdError::InvalidLength(n));
        }
        let mut i: usize = 0;
        while i < n
            invariant
                n == s@.len(),
                n == ID_LENGTH,
                i <= n,
                forall|j: int| 0 <= j < i ==> #[trigger] is_lower_hex(s@[j]),
            decreases n - i,
        {
            let c = s.get_char(i);
            if !(('0' <= c && c <= '9') || ('a' <= c && c <= 'f')) {
                proof {
                    let k = first_bad_char(s@);
                    assert(0 <= k < s@.len() && !is_lower_hex(s@[k]) && forall|j: int|
                        0 <= j < k ==> #[trigger] is_lower_hex(s@[j])) by {
                        assert(0 <= i < s@.len() && !is_lower_hex(s@[i as int]) && forall|j: int|
                            0 <= j < i ==> #[trigger] is_lower_hex(s@[j]));
                    }
                    if k < i {
                        assert(is_lower_hex(s@[k]));
                    } else if k > i {
                        assert(is_lower_hex(s@[i as int]));
                    }
                }
                return Err(IdError::InvalidCharacter(c));
            }
            i += 1;
        }
        Ok(Id { text: s.to_owned() })
    }

    /// The id's text.
    pub fn as_str(&self) -> (s: &str)
        ensures
            s@ == self@,
    {
        self.text.as_str()
    }

    /// The id's text, as an owned string.
    pub fn to_string(&self) -> (s: String)
        ensures
            s@ == self@,
    {
        self.text.clone()
    }

    /// Compares two ids by their texts.
    pub fn same_as(&self, other: &Id) -> (b: bool)
        ensures
            b == (self@ == other@),
    {
        self.text == other.text
    }
}

impl Clone for Id {
    fn clone(&self) -> (res: Self)
        ensures
            res == *self,
    {
        proof {
            use_type_invariant(self);
        }
        Id { text: self.text.clone() }
    }
}

/// `uuid::Uuid::new_v4` rendered with `uuid::Uuid::simple`.  The uuid crate
/// documents the simple form as 32 lowercase hexadecimal digits; the digits
/// themselves are random, so nothing more is claimed of them.
#[verifier::external_body]
fn random_uuid_text() -> (s: String)
    ensures
        valid_id_text(s@),
{
    uuid::Uuid::new_v4().simple().to_string()
}

} // verus!
