//! Farm names, with their own error type.

use vstd::prelude::*;
use crate::name::{MAX_NAME_LENGTH, find_forbidden, first_forbidden, name_accepted};
use crate::text::{count_graphemes, grapheme_count, quoted_char, trim, trimmed, decimal, decimal_text};

verus! {

/// Why a farm name was refused.
#[derive(Debug, Clone)]
pub enum FarmNameError {
    /// Nothing but white space.
    EmptyName,
    /// More than `MAX_NAME_LENGTH` clusters; holds the count.
    TooLong(usize),
    /// Holds the first forbidden character, in single quotes.
    ForbiddenCharacters(String),
}

impl FarmNameError {
    /// A sentence for the client.
    pub fn message(&self) -> (r: String)
        ensures
            self is EmptyName ==> r@ == "Farm name cannot be empty."@,
            self matches FarmNameError::TooLong(n) ==> r@ == "Farm name is too long (max 256 characters, got "@
                + decimal(n as nat) + "."@,
            self matches FarmNameError::ForbiddenCharacters(c) ==> r@
                == "Farm name contains forbidden characters: "@ + c@,
    {
        match self {
            FarmNameError::EmptyName => "Farm name cannot be empty.".to_owned(),
            FarmNameError::TooLong(n) => {
                let mut m = "Farm name is too long (max 256 characters, got ".to_owned();
                m.append(decimal_text(*n).as_str());
                m.append(".");
                m
            },
            FarmNameError::ForbiddenCharacters(c) => {
                let mut m = "Farm name contains forbidden characters: ".to_owned();
                m.append(c.as_str());
                m
            },
        }
    }
}

/// A farm's name: not blank, at most `MAX_NAME_LENGTH` grapheme clusters,
/// free of `/ ( ) " < > \ { }`, and trimmed.
#[derive(Debug)]
pub struct FarmName {
    text: String,
}

impl View for FarmName {
    type V = Seq<char>;

    closed spec fn view(&self) -> Seq<char> {
        self.text@
    }
}

impl Clone for FarmName {
    fn clone(&self) -> (r: FarmName)
        ensures
            r@ == self@,
    {
        proof {
            use_type_invariant(self);
        }
        FarmName { text: self.text.clone() }
    }
}

impl FarmName {
    #[verifier::type_invariant]
    spec fn inv(self) -> bool {
        self.text@.len() > 0
    }

    /// Accepts `s` when it is not blank, has at most `MAX_NAME_LENGTH`
    /// grapheme clusters and no forbidden character; keeps it trimmed.
    pub fn parse(s: String) -> (r: Result<FarmName, FarmNameError>)
        ensures
            r is Ok <==> name_accepted(s@),
            r matches Ok(n) ==> n@ == trimmed(s@),
            trimmed(s@).len() == 0 ==> r matches Err(FarmNameError::EmptyName),
            trimmed(s@).len() > 0 && grapheme_count(s@) > MAX_NAME_LENGTH ==> (r matches Err(
                FarmNameError::TooLong(n),
            ) && n == grapheme_count(s@)),
            trimmed(s@).len() > 0 && grapheme_count(s@) <= MAX_NAME_LENGTH ==> (first_forbidden(
                s@,
            ) matches Some(c) ==> (r matches Err(FarmNameError::ForbiddenCharacters(m)) && m@
                == seq!['\'', c, '\''])),
    {
        if trim(s.as_str()).is_empty() {
            return Err(FarmNameError::EmptyName);
        }
        let n: usize = count_graphemes(s.as_str());
        if n > MAX_NAME_LENGTH {
            return Err(FarmNameError::TooLong(n));
        }
        if let Some(c) = find_forbidden(s.as_str()) {
            return Err(FarmNameError::ForbiddenCharacters(quoted_char(c)));
        }
        Ok(FarmName { text: trim(s.as_str()).to_owned() })
    }

    /// The name's text.
    pub fn as_str(&self) -> (r: &str)
        ensures
            r@ == self@,
    {
        self.text.as_str()
    }
}

} // verus!
