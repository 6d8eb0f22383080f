//! How two things stand to each other in a sort order, and the order of texts.
use vstd::prelude::*;

verus! {

/// Where one item stands relative to another.
#[derive(Debug, Clone, Copy, PartialEq, Eq, Structural)]
pub enum Order {
    /// It comes first.
    Before,
    /// Neither comes first.
    Same,
    /// It comes last.
    After,
}

impl Order {
    /// The order seen from the other item.
    pub open spec fn reversed(self) -> Order {
        match self {
            Order::Before => Order::After,
            Order::Same => Order::Same,
            Order::After => Order::Before,
        }
    }

    /// The order seen from the other item.
    pub fn reverse(self) -> (r: Order)
        ensures
            r == self.reversed(),
    {
        match self {
            Order::Before => Order::After,
            Order::Same => Order::Same,
            Order::After => Order::Before,
        }
    }

    /// This order where `keep` holds, and the reversed order where it does not.
    pub open spec fn oriented(self, keep: bool) -> Order {
        if keep {
            self
        } else {
            self.reversed()
        }
    }

    /// This order where `keep` holds, and the reversed order where it does not.
    pub fn orient(self, keep: bool) -> (r: Order)
        ensures
            r == self.oriented(keep),
    {
        if keep {
            self
        } else {
            self.reverse()
        }
    }
}

/// The order of two texts from position `from` on: character by character, by
/// code point; a text that ends first comes first.
pub open spec fn text_order_from(a: Seq<char>, b: Seq<char>, from: int) -> Order
    decreases a.len() - from,
{
    if from < 0 || from >= a.len() {
        if from < b.len() {
            Order::Before
        } else {
            Order::Same
        }
    } else if from >= b.len() {
        Order::After
    } else if a[from] < b[from] {
        Order::Before
    } else if a[from] > b[from] {
        Order::After
    } else {
        text_order_from(a, b, from + 1)
    }
}

/// The lexicographic order of two texts, as strings are ordered.
pub open spec fn text_order(a: Seq<char>, b: Seq<char>) -> Order {
    text_order_from(a, b, 0)
}

/// Seen from the other text, the order is reversed.
pub proof fn lemma_text_order_reversed(a: Seq<char>, b: Seq<char>, from: int)
    requires
        0 <= from,
    ensures
        text_order_from(b, a, from) == text_order_from(a, b, from).reversed(),
    decreases a.len() - from,
{
    if from < a.len() && from < b.len() && a[from] == b[from] {
        lemma_text_order_reversed(a, b, from + 1);
    }
}

/// Two texts stand in the same place exactly when they are the same text, as
/// far as they are at least `from` characters long and agree before `from`.
pub proof fn lemma_text_order_same(a: Seq<char>, b: Seq<char>, from: int)
    requires
        0 <= from <= a.len(),
        from <= b.len(),
        a.take(from) == b.take(from),
    ensures
        text_order_from(a, b, from) == Order::Same <==> a == b,
    decreases a.len() - from,
{
    if from < a.len() && from < b.len() {
        if a[from] == b[from] {
            assert(a.take(from + 1) =~= a.take(from).push(a[from]));
            assert(b.take(from + 1) =~= b.take(from).push(b[from]));
            lemma_text_order_same(a, b, from + 1);
        }
    } else if from == a.len() && from == b.len() {
        assert(a =~= a.take(from));
        assert(b =~= b.take(from));
    }
}

/// Two texts stand in the same place exactly when they are the same text.
pub proof fn lemma_same_place_same_text(a: Seq<char>, b: Seq<char>)
    ensures
        text_order(a, b) == Order::Same <==> a == b,
{
    assert(a.take(0) =~= b.take(0));
    lemma_text_order_same(a, b, 0);
}

/// The lexicographic order of two texts.
pub fn order_of_texts(a: &Vec<char>, b: &Vec<char>) -> (r: Order)
    ensures
        r == text_order(a@, b@),
        text_order(b@, a@) == r.reversed(),
{
    proof {
        lemma_text_order_reversed(a@, b@, 0);
    }
    let mut i: usize = 0;
    while i < a.len() && i < b.len()
        invariant
            i <= a.len(),
            i <= b.len(),
            text_order(a@, b@) == text_order_from(a@, b@, i as int),
            text_order(b@, a@) == text_order(a@, b@).reversed(),
        decreases a.len() - i,
    {
        if a[i] < b[i] {
            return Order::Before;
        }
        if a[i] > b[i] {
            return Order::After;
        }
        i += 1;
    }
    if i < b.len() {
        Order::Before
    } else if i < a.len() {
        Order::After
    } else {
        Order::Same
    }
}

} // verus!
