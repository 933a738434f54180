//! Question categories and the board squares that ask them.
use vstd::prelude::*;

verus! {

/// The number of question categories.
pub const CATEGORY_COUNT: usize = 4;

/// A category of trivia questions.
#[derive(Clone, Copy, Debug, PartialEq, Eq, Structural, Hash)]
pub enum Category {
    Pop,
    Science,
    Sports,
    Rock,
}

/// The categories in their declared order.
pub open spec fn all_categories() -> Seq<Category> {
    seq![Category::Pop, Category::Science, Category::Sports, Category::Rock]
}

/// The category asked on board square `place`: the categories repeat in
/// their declared order around the board.
pub open spec fn category_for_place(place: int) -> Category {
    all_categories()[place % (CATEGORY_COUNT as int)]
}

/// The category's name as it is displayed.
pub open spec fn category_name(c: Category) -> Seq<char> {
    match c {
        Category::Pop => "Pop"@,
        Category::Science => "Science"@,
        Category::Sports => "Sports"@,
        Category::Rock => "Rock"@,
    }
}

impl Category {
    /// The position of the category in the declared order.
    pub open spec fn spec_ordinal(self) -> nat {
        match self {
            Category::Pop => 0,
            Category::Science => 1,
            Category::Sports => 2,
            Category::Rock => 3,
        }
    }

    /// The position of the category in the declared order.
    pub fn ordinal(&self) -> (i: usize)
        ensures
            i == self.spec_ordinal(),
            i < CATEGORY_COUNT,
            all_categories()[i as int] == *self,
    {
        match self {
            Category::Pop => 0,
            Category::Science => 1,
            Category::Sports => 2,
            Category::Rock => 3,
        }
    }

    /// Every category, in declared order.
    pub fn all() -> (v: Vec<Category>)
        ensures
            v@ == all_categories(),
    {
        vec![Category::Pop, Category::Science, Category::Sports, Category::Rock]
    }

    /// The category's displayed name.
    pub fn to_string(&self) -> (s: String)
        ensures
            s@ == category_name(*self),
    {
        match self {
            Category::Pop => String::from_str("Pop"),
            Category::Science => String::from_str("Science"),
            Category::Sports => String::from_str("Sports"),
            Category::Rock => String::from_str("Rock"),
        }
    }
}

/// Squares that are a whole number of category cycles apart ask the same category.
pub proof fn lemma_category_period(place: int, k: int)
    requires
        place >= 0,
        k >= 0,
    ensures
        category_for_place(place + (CATEGORY_COUNT as int) * k) == category_for_place(place),
{
    vstd::arithmetic::div_mod::lemma_mod_multiples_vanish(k, place, CATEGORY_COUNT as int);
}

} // verus!
