//! Postal addresses.

use vstd::prelude::*;
use crate::text::{count_graphemes, decimal, decimal_text, grapheme_count, trim, trimmed};

verus! {

/// Fewest grapheme clusters an address may have.
pub const MIN_ADDRESS_LENGTH: usize = 5;

/// Most grapheme clusters an address may have.
pub const MAX_ADDRESS_LENGTH: usize = 200;

/// Why an address was refused.
#[derive(Debug, Clone, Copy, PartialEq, Eq, Structural)]
pub enum AddressError {
    /// Nothing but white space.
    EmptyAddress,
    /// More than `MAX_ADDRESS_LENGTH` clusters; holds the count.
    TooLong(usize),
    /// Fewer than `MIN_ADDRESS_LENGTH` clusters; holds the count.
    TooShort(usize),
}

/// The sentence that explains a refused address.
pub open spec fn address_message(e: AddressError) -> Seq<char> {
    match e {
        AddressError::EmptyAddress => "Address cannot be empty."@,
        AddressError::TooLong(n) => "Address is too long (max 200 characters, got "@ + decimal(
            n as nat,
        ) + ")."@,
        AddressError::TooShort(n) => "Address is too short (min 5 characters, got "@ + decimal(
            n as nat,
        ) + ")."@,
    }
}

impl AddressError {
    /// A sentence for the client.
    pub fn message(&self) -> (r: String)
        ensures
            r@ == address_message(*self),
    {
        match self {
            AddressError::EmptyAddress => "Address cannot be empty.".to_owned(),
            AddressError::TooLong(n) => {
                let mut m = "Address is too long (max 200 characters, got ".to_owned();
                m.append(decimal_text(*n).as_str());
                m.append(").");
                m
            },
            AddressError::TooShort(n) => {
                let mut m = "Address is too short (min 5 characters, got ".to_owned();
                m.append(decimal_text(*n).as_str());
                m.append(").");
                m
            },
        }
    }
}

/// What parsing `s` as an address gives: the trimmed text, or the refusal.
pub open spec fn address_result(s: Seq<char>) -> Result<Seq<char>, AddressError> {
    let t = trimmed(s);
    let n = grapheme_count(t);
    if t.len() == 0 {
        Err(AddressError::EmptyAddress)
    } else if n < MIN_ADDRESS_LENGTH {
        Err(AddressError::TooShort(n as usize))
    } else if n > MAX_ADDRESS_LENGTH {
        Err(AddressError::TooLong(n as usize))
    } else {
        Ok(t)
    }
}

/// A postal address: trimmed, between `MIN_ADDRESS_LENGTH` and
/// `MAX_ADDRESS_LENGTH` grapheme clusters long. Street, postal code and city
/// may be separated by commas or line breaks.
#[derive(Debug)]
pub struct Address {
    text: String,
}

impl Clone for Address {
    fn clone(&self) -> (r: Address)
        ensures
            r@ == self@,
    {
        proof {
            use_type_invariant(self);
        }
        Address { text: self.text.clone() }
    }
}

impl View for Address {
    type V = Seq<char>;

    closed spec fn view(&self) -> Seq<char> {
        self.text@
    }
}

impl Address {
    #[verifier::type_invariant]
    spec fn inv(self) -> bool {
        MIN_ADDRESS_LENGTH <= grapheme_count(self.text@) <= MAX_ADDRESS_LENGTH
    }

    /// Trims `s` and accepts it when it has between `MIN_ADDRESS_LENGTH` and
    /// `MAX_ADDRESS_LENGTH` grapheme clusters.
    pub fn parse(s: String) -> (r: Result<Address, AddressError>)
        ensures
            r is Ok <==> address_result(s@) is Ok,
            r matches Ok(a) ==> address_result(s@) == Ok::<Seq<char>, AddressError>(a@),
            r matches Err(e) ==> address_result(s@) == Err::<Seq<char>, AddressError>(e),
    {
        let t = trim(s.as_str());
        if t.is_empty() {
            return Err(AddressError::EmptyAddress);
        }
        let n: usize = count_graphemes(t);
        if n < MIN_ADDRESS_LENGTH {
            return Err(AddressError::TooShort(n));
        }
        if n > MAX_ADDRESS_LENGTH {
            return Err(AddressError::TooLong(n));
        }
        Ok(Address { text: t.to_owned() })
    }

    /// The address text.
    pub fn as_str(&self) -> (r: &str)
        ensures
            r@ == self@,
    {
        self.text.as_str()
    }

    /// The address text, as an owned string.
    pub fn to_string(&self) -> (r: String)
        ensures
            r@ == self@,
    {
        self.text.clone()
    }
}

} // verus!
