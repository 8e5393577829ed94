//! Farm names.

use vstd::prelude::*;
use vstd::std_specs::iter::IteratorSpec;
use crate::text::{count_graphemes, grapheme_count, quoted_char, trim, trimmed, decimal, decimal_text};

verus! {

/// Most grapheme clusters a farm name may have.
pub const MAX_NAME_LENGTH: usize = 256;

/// The characters a farm name may not hold.
pub open spec fn is_forbidden(c: char) -> bool {
    c == '/' || c == '(' || c == ')' || c == '"' || c == '<' || c == '>' || c == '\\' || c == '{'
        || c == '}'
}

/// The first forbidden character of `s`, if it has one.
pub open spec fn first_forbidden(s: Seq<char>) -> Option<char>
    decreases s.len(),
{
    if s.len() == 0 {
        None
    } else if is_forbidden(s[0]) {
        Some(s[0])
    } else {
        first_forbidden(s.drop_first())
    }
}

/// Whether `s` is accepted as a farm name.
pub open spec fn name_accepted(s: Seq<char>) -> bool {
    trimmed(s).len() > 0 && grapheme_count(s) <= MAX_NAME_LENGTH && first_forbidden(s) is None
}

/// The first forbidden character of `s`, if it has one.
pub fn find_forbidden(s: &str) -> (r: Option<char>)
    ensures
        r == first_forbidden(s@),
{
    let mut it = s.chars();
    loop
        invariant
            first_forbidden(it.remaining()) == first_forbidden(s@),
            it.decrease() is Some,
        decreases it.decrease()->0,
    {
        let ghost before = it.remaining();
        match it.next() {
            Some(c) => {
                if c == '/' || c == '(' || c == ')' || c == '"' || c == '<' || c == '>' || c
                    == '\\' || c == '{' || c == '}' {
                    return Some(c);
                }
                assert(it.remaining() == before.drop_first());
            },
            None => {
                return None;
            },
        }
    }
}

/// Why a farm name was refused.
#[derive(Debug, Clone)]
pub enum NameError {
    /// Nothing but white space.
    EmptyName,
    /// More than `MAX_NAME_LENGTH` clusters; holds the count.
    TooLong(usize),
    /// Holds the first forbidden character, in single quotes.
    ForbiddenCharacters(String),
}

impl NameError {
    /// A sentence for the client.
    pub fn message(&self) -> (r: String)
        ensures
            self is EmptyName ==> r@ == "Farm name cannot be empty."@,
            self matches NameError::TooLong(n) ==> r@ == "Farm name is too long (max 256 characters, got "@
                + decimal(n as nat) + "."@,
            self matches NameError::ForbiddenCharacters(c) ==> r@
                == "Farm name contains forbidden characters: "@ + c@ + "."@,
    {
        match self {
            NameError::EmptyName => "Farm name cannot be empty.".to_owned(),
            NameError::TooLong(n) => {
                let mut m = "Farm name is too long (max 256 characters, got ".to_owned();
                m.append(decimal_text(*n).as_str());
                m.append(".");
                m
            },
            NameError::ForbiddenCharacters(c) => {
                let mut m = "Farm name contains forbidden characters: ".to_owned();
                m.append(c.as_str());
                m.append(".");
                m
            },
        }
    }
}

/// A farm's name: not blank, at most `MAX_NAME_LENGTH` grapheme clusters,
/// free of `/ ( ) " < > \ { }`, and trimmed.
#[derive(Debug)]
pub struct Name {
    text: String,
}

impl View for Name {
    type V = Seq<char>;

    closed spec fn view(&self) -> Seq<char> {
        self.text@
    }
}

impl Clone for Name {
    fn clone(&self) -> (r: Name)
        ensures
            r@ == self@,
    {
        proof {
            use_type_invariant(self);
        }
        Name { text: self.text.clone() }
    }
}

impl Name {
    #[verifier::type_invariant]
    spec fn inv(self) -> bool {
        self.text@.len() > 0
    }

    /// Accepts `s` when it is not blank, has at most `MAX_NAME_LENGTH`
    /// grapheme clusters and no forbidden character; keeps it trimmed.
    pub fn parse(s: String) -> (r: Result<Name, NameError>)
        ensures
            r is Ok <==> name_accepted(s@),
            r matches Ok(n) ==> n@ == trimmed(s@),
            trimmed(s@).len() == 0 ==> r matches Err(NameError::EmptyName),
            trimmed(s@).len() > 0 && grapheme_count(s@) > MAX_NAME_LENGTH ==> (r matches Err(
                NameError::TooLong(n),
            ) && n == grapheme_count(s@)),
            trimmed(s@).len() > 0 && grapheme_count(s@) <= MAX_NAME_LENGTH ==> (first_forbidden(
                s@,
            ) matches Some(c) ==> (r matches Err(NameError::ForbiddenCharacters(m)) && m@ == seq![
                '\'',
                c,
                '\'',
            ])),
    {
        let t = trim(s.as_str());
        if t.is_empty() {
            return Err(NameError::EmptyName);
        }
        let n: usize = count_graphemes(s.as_str());
        if n > MAX_NAME_LENGTH {
            return Err(NameError::TooLong(n));
        }
        if let Some(c) = find_forbidden(s.as_str()) {
            return Err(NameError::ForbiddenCharacters(quoted_char(c)));
        }
        Ok(Name { text: t.to_owned() })
    }

    /// The name's text.
    pub fn as_str(&self) -> (r: &str)
        ensures
            r@ == self@,
    {
        self.text.as_str()
    }
}

} // verus!
