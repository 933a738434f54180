//! The stand-in deck of the default game: for each category, numbered
//! placeholder questions, drawn from the highest number down.
use vstd::prelude::*;
use crate::category::{Category, CATEGORY_COUNT, all_categories, category_name};
use crate::text::{decimal_digits, decimal_string};

verus! {

/// How many questions of each category the stand-in deck holds.
pub const NUM_CARDS_PER_CATEGORY: usize = 50;

/// The text of stand-in question `index` of `category`, such as `"Rock Question 7"`.
pub open spec fn question_text(category: Category, index: nat) -> Seq<char> {
    category_name(category) + " Question "@ + decimal_digits(index)
}

/// The full pile of stand-in questions of `category`, numbered from zero.
pub open spec fn full_pile(category: Category) -> Seq<Seq<char>> {
    Seq::new(NUM_CARDS_PER_CATEGORY as nat, |i: int| question_text(category, i as nat))
}

/// The text of stand-in question `index` of `category`.
pub fn question_for(category: Category, index: usize) -> (s: String)
    ensures
        s@ == question_text(category, index as nat),
{
    let mut s = category.to_string();
    s.append(" Question ");
    let number = decimal_string(index);
    s.append(number.as_str());
    s
}

/// The questions of `category`, numbered from zero.
fn dummy_pile(category: Category) -> (pile: Vec<String>)
    ensures
        pile@.map_values(|q: String| q@) == full_pile(category),
{
    let mut pile: Vec<String> = Vec::new();
    for index in 0..NUM_CARDS_PER_CATEGORY
        invariant
            pile@.len() == index,
            forall|k: int| 0 <= k < index ==> #[trigger] pile@[k]@ == question_text(category, k as nat),
    {
        pile.push(question_for(category, index));
    }
    assert(pile@.map_values(|q: String| q@) =~= full_pile(category));
    pile
}

/// A deck of stand-in questions, one pile per category.
pub struct DummyDeck {
    piles: Vec<Vec<String>>,
}

impl DummyDeck {
    /// The deck has one pile per category.
    pub closed spec fn wf(&self) -> bool {
        self.piles@.len() == CATEGORY_COUNT
    }

    /// The questions left in the pile of `category`, bottom first.
    pub closed spec fn pile(&self, category: Category) -> Seq<Seq<char>> {
        self.piles@[category.spec_ordinal() as int]@.map_values(|q: String| q@)
    }

    /// Draws the top question of `category`'s pile: the one added last.
    /// `None` when that pile is empty; the other piles are untouched.
    pub fn take_question(&mut self, category: Category) -> (q: Option<String>)
        requires
            old(self).wf(),
        ensures
            final(self).wf(),
            old(self).pile(category).len() == 0 ==> q is None && final(self).pile(category)
                == old(self).pile(category),
            old(self).pile(category).len() > 0 ==> q is Some && q->0@ == old(self).pile(
                category,
            ).last() && final(self).pile(category) == old(self).pile(category).drop_last(),
            forall|c: Category| c != category ==> #[trigger] final(self).pile(c) == old(self).pile(c),
    {
        let j = category.ordinal();
        let ghost before = self.piles@;
        let mut pile = self.piles.remove(j);
        let q = pile.pop();
        self.piles.insert(j, pile);
        proof {
            assert forall|c: Category| c != category implies #[trigger] self.pile(c) == old(self).pile(c) by {
                assert(self.piles@[c.spec_ordinal() as int] == before[c.spec_ordinal() as int]);
            }
            if before[j as int]@.len() > 0 {
                assert(self.pile(category) =~= old(self).pile(category).drop_last());
            }
        }
        q
    }
}

impl Default for DummyDeck {
    /// A deck holding every stand-in question of every category.
    fn default() -> (d: Self)
        ensures
            d.wf(),
            forall|c: Category| #[trigger] d.pile(c) == full_pile(c),
    {
        let piles = vec![
            dummy_pile(Category::Pop),
            dummy_pile(Category::Science),
            dummy_pile(Category::Sports),
            dummy_pile(Category::Rock),
        ];
        let d = DummyDeck { piles };
        assert forall|c: Category| #[trigger] d.pile(c) == full_pile(c) by {
            assert(all_categories()[c.spec_ordinal() as int] == c);
        }
        d
    }
}

} // verus!
