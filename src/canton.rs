//! Swiss canton codes.

use vstd::prelude::*;
use crate::text::{same_text, to_uppercase, trim, trimmed, upper_of};

verus! {

/// Whether `s` is the abbreviation of one of the 26 cantons.
pub open spec fn is_canton_code(s: Seq<char>) -> bool {
    s == "AG"@ || s == "AI"@ || s == "AR"@ || s == "BE"@ || s == "BL"@ || s == "BS"@
        || s == "FR"@ || s == "GE"@ || s == "GL"@ || s == "GR"@ || s == "JU"@ || s == "LU"@
        || s == "NE"@ || s == "NW"@ || s == "OW"@ || s == "SG"@ || s == "SH"@ || s == "SO"@
        || s == "SZ"@ || s == "TG"@ || s == "TI"@ || s == "UR"@ || s == "VD"@ || s == "VS"@
        || s == "ZG"@ || s == "ZH"@
}

fn is_canton_code_exec(s: &str) -> (r: bool)
    ensures
        r == is_canton_code(s@),
{
    same_text(s, "AG") || same_text(s, "AI") || same_text(s, "AR") || same_text(s, "BE")
        || same_text(s, "BL") || same_text(s, "BS") || same_text(s, "FR") || same_text(s, "GE")
        || same_text(s, "GL") || same_text(s, "GR") || same_text(s, "JU") || same_text(s, "LU")
        || same_text(s, "NE") || same_text(s, "NW") || same_text(s, "OW") || same_text(s, "SG")
        || same_text(s, "SH") || same_text(s, "SO") || same_text(s, "SZ") || same_text(s, "TG")
        || same_text(s, "TI") || same_text(s, "UR") || same_text(s, "VD") || same_text(s, "VS")
        || same_text(s, "ZG") || same_text(s, "ZH")
}

/// A canton, held as its upper-case abbreviation.
#[derive(Debug)]
pub struct Canton {
    code: String,
}

/// Why a canton code was refused.
#[derive(Debug, Clone)]
pub enum CantonError {
    /// Not an abbreviation of a canton; holds the input as given.
    InvalidCanton(String),
    /// Nothing but white space.
    EmptyCanton,
}

impl Clone for Canton {
    fn clone(&self) -> (r: Canton)
        ensures
            r@ == self@,
    {
        proof {
            use_type_invariant(self);
        }
        Canton { code: self.code.clone() }
    }
}

impl CantonError {
    /// A sentence for the client.
    pub fn message(&self) -> (r: String)
        ensures
            self matches CantonError::InvalidCanton(x) ==> r@ == "Invalid canton code: "@ + x@
                + ". Must be a valid Swiss canton abbreviation (e.g., 'ZH', 'BE', 'LU')."@,
            self is EmptyCanton ==> r@ == "Canton code cannot be empty."@,
    {
        match self {
            CantonError::InvalidCanton(x) => {
                let mut m = "Invalid canton code: ".to_owned();
                m.append(x.as_str());
                m.append(". Must be a valid Swiss canton abbreviation (e.g., 'ZH', 'BE', 'LU').");
                m
            },
            CantonError::EmptyCanton => "Canton code cannot be empty.".to_owned(),
        }
    }
}

impl View for Canton {
    type V = Seq<char>;

    closed spec fn view(&self) -> Seq<char> {
        self.code@
    }
}

impl Canton {
    #[verifier::type_invariant]
    spec fn inv(self) -> bool {
        is_canton_code(self.code@)
    }

    /// Trims `s`, maps it to upper case and accepts it when it is one of the
    /// 26 canton abbreviations.
    pub fn parse(s: String) -> (r: Result<Canton, CantonError>)
        ensures
            trimmed(s@).len() == 0 ==> r matches Err(CantonError::EmptyCanton),
            trimmed(s@).len() > 0 && is_canton_code(upper_of(trimmed(s@))) ==> (r matches Ok(c)
                && c@ == upper_of(trimmed(s@))),
            trimmed(s@).len() > 0 && !is_canton_code(upper_of(trimmed(s@))) ==> (r matches Err(
                CantonError::InvalidCanton(x),
            ) && x@ == s@),
    {
        let t = trim(s.as_str());
        if t.is_empty() {
            return Err(CantonError::EmptyCanton);
        }
        let upper = to_uppercase(t);
        if is_canton_code_exec(upper.as_str()) {
            Ok(Canton { code: upper })
        } else {
            Err(CantonError::InvalidCanton(s))
        }
    }

    /// The canton's abbreviation.
    pub fn as_str(&self) -> (r: &str)
        ensures
            r@ == self@,
            is_canton_code(r@),
    {
        proof {
            use_type_invariant(self);
        }
        self.code.as_str()
    }
}

} // verus!
