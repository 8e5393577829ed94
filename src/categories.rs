//! Farm categories: a short list of distinct, non-blank labels.

use vstd::prelude::*;
use crate::text::{decimal, decimal_text, lower_of, to_lowercase, trim, trimmed, utf8_len};

verus! {

/// Most categories a farm may have.
pub const MAX_CATEGORIES: usize = 50;

/// Most bytes a category may have, once trimmed.
pub const MAX_CATEGORY_NAME_LENGTH: usize = 50;

/// Why a list of categories was refused.
#[derive(Debug, Clone)]
pub enum CategoriesError {
    /// The list is empty.
    EmptyCategories,
    /// This entry, as given, is blank.
    EmptyCategoryValue(String),
    /// This trimmed entry has `actual` bytes, more than `max`.
    CategoryLengthTooLong { category: String, max: usize, actual: usize },
    /// The list has `count` entries, more than `max`.
    TooManyCategories { count: usize, max: usize },
    /// This trimmed entry repeats an earlier one, ignoring case.
    DuplicateCategory(String),
}

/// The sentence that explains a refused list.
pub open spec fn categories_message(e: CategoriesError) -> Seq<char> {
    match e {
        CategoriesError::EmptyCategories => "Categories list cannot be empty."@,
        CategoriesError::EmptyCategoryValue(c) => "Category '"@ + c@ + "' is empty or whitespace."@,
        CategoriesError::CategoryLengthTooLong { category, max, actual } => "Categories '"@
            + category@ + "' exceeds maximum length of "@ + decimal(max as nat)
            + " characters (actual: "@ + decimal(actual as nat) + "."@,
        CategoriesError::TooManyCategories { count, max } => "Too many categories: "@ + decimal(
            count as nat,
        ) + ". Maximim allowed is "@ + decimal(max as nat) + "."@,
        CategoriesError::DuplicateCategory(c) => "Duplicate category: '"@ + c@ + "'."@,
    }
}

impl CategoriesError {
    /// A sentence for the client.
    pub fn message(&self) -> (r: String)
        ensures
            r@ == categories_message(*self),
    {
        match self {
            CategoriesError::EmptyCategories => "Categories list cannot be empty.".to_owned(),
            CategoriesError::EmptyCategoryValue(c) => {
                let mut m = "Category '".to_owned();
                m.append(c.as_str());
                m.append("' is empty or whitespace.");
                m
            },
            CategoriesError::CategoryLengthTooLong { category, max, actual } => {
                let mut m = "Categories '".to_owned();
                m.append(category.as_str());
                m.append("' exceeds maximum length of ");
                m.append(decimal_text(*max).as_str());
                m.append(" characters (actual: ");
                m.append(decimal_text(*actual).as_str());
                m.append(".");
                m
            },
            CategoriesError::TooManyCategories { count, max } => {
                let mut m = "Too many categories: ".to_owned();
                m.append(decimal_text(*count).as_str());
                m.append(". Maximim allowed is ");
                m.append(decimal_text(*max).as_str());
                m.append(".");
                m
            },
            CategoriesError::DuplicateCategory(c) => {
                let mut m = "Duplicate category: '".to_owned();
                m.append(c.as_str());
                m.append("'.");
                m
            },
        }
    }
}

pub open spec fn strings_view(v: Seq<String>) -> Seq<Seq<char>> {
    v.map_values(|s: String| s@)
}

/// Whether entry `i` of `cs` repeats an earlier entry, ignoring case.
pub open spec fn is_duplicate_at(cs: Seq<Seq<char>>, i: int) -> bool {
    exists|j: int| 0 <= j < i && lower_of(trimmed(cs[j])) == lower_of(trimmed(cs[i]))
}

/// Whether entry `i` of `cs` is refused: blank, too long, or a repeat.
pub open spec fn entry_refused(cs: Seq<Seq<char>>, i: int) -> bool {
    trimmed(cs[i]).len() == 0 || utf8_len(trimmed(cs[i])) > MAX_CATEGORY_NAME_LENGTH
        || is_duplicate_at(cs, i)
}

/// Whether the list `cs` is accepted.
pub open spec fn categories_accepted(cs: Seq<Seq<char>>) -> bool {
    1 <= cs.len() <= MAX_CATEGORIES && forall|i: int| 0 <= i < cs.len() ==> !entry_refused(cs, i)
}

/// Whether `e` is the refusal of entry `i` of `cs`.
pub open spec fn describes_refusal(e: CategoriesError, cs: Seq<Seq<char>>, i: int) -> bool {
    let t = trimmed(cs[i]);
    if t.len() == 0 {
        e matches CategoriesError::EmptyCategoryValue(c) && c@ == cs[i]
    } else if utf8_len(t) > MAX_CATEGORY_NAME_LENGTH {
        e matches CategoriesError::CategoryLengthTooLong { category, max, actual } && category@ == t
            && max == MAX_CATEGORY_NAME_LENGTH && actual == utf8_len(t)
    } else {
        e matches CategoriesError::DuplicateCategory(c) && c@ == t
    }
}

/// `s` with `sep` between consecutive items.
pub open spec fn joined(s: Seq<Seq<char>>, sep: Seq<char>) -> Seq<char>
    decreases s.len(),
{
    if s.len() == 0 {
        Seq::empty()
    } else if s.len() == 1 {
        s[0]
    } else {
        joined(s.drop_last(), sep) + sep + s.last()
    }
}

/// A validated list of categories, trimmed, in the order given, each in the
/// letter case it was given in.
#[derive(Debug)]
pub struct Categories {
    items: Vec<String>,
}

impl View for Categories {
    type V = Seq<Seq<char>>;

    closed spec fn view(&self) -> Seq<Seq<char>> {
        strings_view(self.items@)
    }
}

fn holds_text(v: &Vec<String>, s: &String) -> (r: bool)
    ensures
        r == strings_view(v@).contains(s@),
{
    let mut i: usize = 0;
    while i < v.len()
        invariant
            i <= v@.len(),
            forall|k: int| 0 <= k < i ==> v@[k]@ != s@,
        decreases v@.len() - i,
    {
        if v[i] == *s {
            assert(strings_view(v@)[i as int] == s@);
            return true;
        }
        i = i + 1;
    }
    false
}

impl Categories {
    #[verifier::type_invariant]
    spec fn inv(self) -> bool {
        1 <= self.items@.len() <= MAX_CATEGORIES
    }

    /// Validates a list of categories: it must not be empty nor hold more
    /// than `MAX_CATEGORIES` entries; each entry is trimmed and must not be
    /// blank, longer than `MAX_CATEGORY_NAME_LENGTH` bytes, or a repeat of an
    /// earlier entry ignoring case. The first refused entry decides the error.
    pub fn parse(categories: Vec<String>) -> (r: Result<Categories, CategoriesError>)
        ensures
            r is Ok <==> categories_accepted(strings_view(categories@)),
            r matches Ok(c) ==> c@ == strings_view(categories@).map_values(
                |s: Seq<char>| trimmed(s),
            ),
            categories@.len() == 0 ==> r matches Err(CategoriesError::EmptyCategories),
            categories@.len() > MAX_CATEGORIES ==> (r matches Err(
                CategoriesError::TooManyCategories { count, max },
            ) && count == categories@.len() && max == MAX_CATEGORIES),
            1 <= categories@.len() <= MAX_CATEGORIES && !categories_accepted(
                strings_view(categories@),
            ) ==> (r matches Err(e) && exists|i: int|
                0 <= i < categories@.len() && entry_refused(strings_view(categories@), i) && (
                forall|j: int| 0 <= j < i ==> !entry_refused(strings_view(categories@), j))
                    && describes_refusal(e, strings_view(categories@), i)),
    {
        let ghost cs = strings_view(categories@);
        let n: usize = categories.len();
        if n == 0 {
            return Err(CategoriesError::EmptyCategories);
        }
        if n > MAX_CATEGORIES {
            return Err(CategoriesError::TooManyCategories { count: n, max: MAX_CATEGORIES });
        }
        let mut validated: Vec<String> = Vec::new();
        let mut seen: Vec<String> = Vec::new();
        let mut i: usize = 0;
        while i < n
            invariant
                cs == strings_view(categories@),
                n == categories@.len(),
                1 <= n <= MAX_CATEGORIES,
                i <= n,
                validated@.len() == i,
                seen@.len() == i,
                forall|k: int| 0 <= k < i ==> #[trigger] validated@[k]@ == trimmed(cs[k]),
                forall|k: int| 0 <= k < i ==> #[trigger] seen@[k]@ == lower_of(trimmed(cs[k])),
                forall|k: int| 0 <= k < i ==> !entry_refused(cs, k),
            decreases n - i,
        {
            assert(cs[i as int] == categories@[i as int]@);
            let t = trim(categories[i].as_str());
            if t.is_empty() {
                let e = CategoriesError::EmptyCategoryValue(categories[i].clone());
                assert(entry_refused(cs, i as int) && describes_refusal(e, cs, i as int));
                return Err(e);
            }
            let len: usize = t.as_bytes().len();
            if len > MAX_CATEGORY_NAME_LENGTH {
                let e = CategoriesError::CategoryLengthTooLong {
                    category: t.to_owned(),
                    max: MAX_CATEGORY_NAME_LENGTH,
                    actual: len,
                };
                assert(entry_refused(cs, i as int) && describes_refusal(e, cs, i as int));
                return Err(e);
            }
            let lower = to_lowercase(t);
            let mut j: usize = 0;
            while j < i
                invariant
                    cs == strings_view(categories@),
                    i < n,
                    n == categories@.len(),
                    1 <= n <= MAX_CATEGORIES,
                    t@ == trimmed(cs[i as int]),
                    trimmed(cs[i as int]).len() > 0,
                    utf8_len(trimmed(cs[i as int])) <= MAX_CATEGORY_NAME_LENGTH,
                    j <= i,
                    seen@.len() == i,
                    lower@ == lower_of(trimmed(cs[i as int])),
                    forall|k: int| 0 <= k < i ==> #[trigger] seen@[k]@ == lower_of(trimmed(cs[k])),
                    forall|k: int| 0 <= k < j ==> seen@[k]@ != lower@,
                    forall|k: int| 0 <= k < i ==> !entry_refused(cs, k),
                decreases i - j,
            {
                if seen[j] == lower {
                    let e = CategoriesError::DuplicateCategory(t.to_owned());
                    assert(seen@[j as int]@ == lower_of(trimmed(cs[j as int])));
                    assert(is_duplicate_at(cs, i as int));
                    assert(entry_refused(cs, i as int) && describes_refusal(e, cs, i as int));
                    return Err(e);
                }
                j = j + 1;
            }
            assert(!is_duplicate_at(cs, i as int)) by {
                assert forall|k: int| 0 <= k < i implies lower_of(trimmed(cs[k])) != lower_of(
                    trimmed(cs[i as int]),
                ) by {
                    assert(seen@[k]@ == lower_of(trimmed(cs[k])));
                }
            }
            seen.push(lower);
            validated.push(t.to_owned());
            i = i + 1;
        }
        assert(strings_view(validated@) =~= cs.map_values(|s: Seq<char>| trimmed(s)));
        Ok(Categories { items: validated })
    }

    /// The categories, in order.
    pub fn as_slice(&self) -> (r: &[String])
        ensures
            strings_view(r@) == self@,
    {
        self.items.as_slice()
    }

    /// The categories, in order.
    pub fn as_vec(&self) -> (r: &Vec<String>)
        ensures
            strings_view(r@) == self@,
    {
        &self.items
    }

    /// Consumes the list and returns its categories, in order.
    pub fn into_inner(self) -> (r: Vec<String>)
        ensures
            strings_view(r@) == self@,
    {
        self.items
    }

    /// The number of categories.
    pub fn len(&self) -> (r: usize)
        ensures
            r == self@.len(),
    {
        self.items.len()
    }

    /// Whether the list is empty; never, for a validated list.
    pub fn is_empty(&self) -> (r: bool)
        ensures
            r == (self@.len() == 0),
            !r,
    {
        proof {
            use_type_invariant(self);
        }
        self.items.len() == 0
    }

    /// Whether some category equals `category`, ignoring case.
    pub fn contains(&self, category: &str) -> (r: bool)
        ensures
            r == exists|i: int| 0 <= i < self@.len() && lower_of(self@[i]) == lower_of(category@),
    {
        let wanted = to_lowercase(category);
        let mut i: usize = 0;
        while i < self.items.len()
            invariant
                i <= self.items@.len(),
                wanted@ == lower_of(category@),
                forall|k: int| 0 <= k < i ==> lower_of(self@[k]) != lower_of(category@),
            decreases self.items@.len() - i,
        {
            let lowered = to_lowercase(self.items[i].as_str());
            assert(self@[i as int] == self.items@[i as int]@);
            if lowered == wanted {
                return true;
            }
            i = i + 1;
        }
        false
    }

    /// The categories joined by `", "`.
    pub fn to_string(&self) -> (r: String)
        ensures
            r@ == joined(self@, ", "@),
    {
        proof {
            use_type_invariant(self);
        }
        let mut out = self.items[0].clone();
        let mut i: usize = 1;
        while i < self.items.len()
            invariant
                1 <= i <= self.items@.len(),
                out@ == joined(self@.take(i as int), ", "@),
            decreases self.items@.len() - i,
        {
            out.append(", ");
            out.append(self.items[i].as_str());
            proof {
                let s = self@.take(i + 1);
                assert(s.drop_last() =~= self@.take(i as int));
                assert(s.last() == self@[i as int]);
            }
            i = i + 1;
        }
        proof {
            assert(self@.take(1) =~= seq![self@[0]]);
            assert(self@.take(i as int) =~= self@);
        }
        out
    }
}

impl Clone for Categories {
    fn clone(&self) -> (r: Categories)
        ensures
            r@ == self@,
    {
        proof {
            use_type_invariant(self);
        }
        let mut items: Vec<String> = Vec::new();
        let mut i: usize = 0;
        while i < self.items.len()
            invariant
                i <= self.items@.len(),
                1 <= self.items@.len() <= MAX_CATEGORIES,
                items@.len() == i,
                forall|k: int| 0 <= k < i ==> #[trigger] items@[k]@ == self.items@[k]@,
            decreases self.items@.len() - i,
        {
            items.push(self.items[i].clone());
            i = i + 1;
        }
        assert(strings_view(items@) =~= strings_view(self.items@));
        Categories { items }
    }
}

impl PartialEq for Categories {
    /// Equal when both hold the same number of categories and the same set
    /// of them, in any order; case counts.
    fn eq(&self, other: &Categories) -> (r: bool)
        ensures
            r == (self@.len() == other@.len() && self@.to_set() == other@.to_set()),
    {
        if self.items.len() != other.items.len() {
            return false;
        }
        let mut i: usize = 0;
        while i < self.items.len()
            invariant
                i <= self.items@.len(),
                forall|k: int| 0 <= k < i ==> other@.contains(#[trigger] self@[k]),
            decreases self.items@.len() - i,
        {
            if !holds_text(&other.items, &self.items[i]) {
                assert(self@.to_set().contains(self@[i as int]));
                assert(!other@.to_set().contains(self@[i as int]));
                return false;
            }
            i = i + 1;
        }
        let mut j: usize = 0;
        while j < other.items.len()
            invariant
                j <= other.items@.len(),
                forall|k: int| 0 <= k < j ==> self@.contains(#[trigger] other@[k]),
            decreases other.items@.len() - j,
        {
            if !holds_text(&self.items, &other.items[j]) {
                assert(other@.to_set().contains(other@[j as int]));
                assert(!self@.to_set().contains(other@[j as int]));
                return false;
            }
            j = j + 1;
        }
        assert(self@.to_set() =~= other@.to_set()) by {
            assert forall|x: Seq<char>| self@.to_set().contains(x) implies other@.to_set().contains(
                x,
            ) by {
                let k = choose|k: int| 0 <= k < self@.len() && self@[k] == x;
                assert(other@.contains(self@[k]));
            }
            assert forall|x: Seq<char>| other@.to_set().contains(x) implies self@.to_set().contains(
                x,
            ) by {
                let k = choose|k: int| 0 <= k < other@.len() && other@[k] == x;
                assert(self@.contains(other@[k]));
            }
        }
        true
    }
}

impl vstd::std_specs::cmp::PartialEqSpecImpl for Categories {
    open spec fn obeys_eq_spec() -> bool {
        true
    }

    open spec fn eq_spec(&self, other: &Categories) -> bool {
        self@.len() == other@.len() && self@.to_set() == other@.to_set()
    }
}

impl Eq for Categories {
}

} // verus!
