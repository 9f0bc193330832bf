//! A lexicographic order on texts and a sorted set of strings.

use vstd::prelude::*;
use crate::text::{chars_of, string_texts, str_eq};

verus! {

/// Lexicographic order of texts by code point, as `String`'s `Ord` orders them.
pub open spec fn text_lt(a: Seq<char>, b: Seq<char>) -> bool
    decreases a.len(),
{
    if a.len() == 0 {
        b.len() > 0
    } else if b.len() == 0 {
        false
    } else if a[0] != b[0] {
        (a[0] as u32) < (b[0] as u32)
    } else {
        text_lt(a.drop_first(), b.drop_first())
    }
}

/// No text is below itself.
pub proof fn lemma_lt_irreflexive(a: Seq<char>)
    ensures
        !text_lt(a, a),
    decreases a.len(),
{
    if a.len() > 0 {
        lemma_lt_irreflexive(a.drop_first());
    }
}

/// Of two different texts, one is below the other.
pub proof fn lemma_lt_total(a: Seq<char>, b: Seq<char>)
    ensures
        a == b || text_lt(a, b) || text_lt(b, a),
    decreases a.len(),
{
    if a.len() > 0 && b.len() > 0 && a[0] == b[0] {
        lemma_lt_total(a.drop_first(), b.drop_first());
        if a.drop_first() == b.drop_first() {
            assert(a =~= seq![a[0]] + a.drop_first());
            assert(b =~= seq![b[0]] + b.drop_first());
        }
    } else if a.len() == 0 && b.len() == 0 {
        assert(a =~= b);
    } else if a.len() > 0 && b.len() > 0 {
        vstd::utf8::char_is_scalar(a[0]);
        assert((a[0] as u32) != (b[0] as u32) || a[0] == b[0]) by {
            if (a[0] as u32) == (b[0] as u32) {
                vstd::utf8::char_u32_cast(a[0], a[0] as u32);
                vstd::utf8::char_u32_cast(b[0], b[0] as u32);
            }
        }
    }
}

/// The order is transitive.
pub proof fn lemma_lt_transitive(a: Seq<char>, b: Seq<char>, c: Seq<char>)
    requires
        text_lt(a, b),
        text_lt(b, c),
    ensures
        text_lt(a, c),
    decreases a.len(),
{
    if a.len() > 0 && b.len() > 0 && c.len() > 0 && a[0] == b[0] && b[0] == c[0] {
        lemma_lt_transitive(a.drop_first(), b.drop_first(), c.drop_first());
    }
}

/// Whether a text is below another.
pub fn text_less(a: &str, b: &str) -> (r: bool)
    ensures
        r == text_lt(a@, b@),
{
    let x = chars_of(a);
    let y = chars_of(b);
    let mut i: usize = 0;
    assert(x@.subrange(0, x@.len() as int) =~= x@);
    assert(y@.subrange(0, y@.len() as int) =~= y@);
    while i < x.len() && i < y.len() && x[i] == y[i]
        invariant
            i <= x.len(),
            i <= y.len(),
            text_lt(a@, b@) == text_lt(x@.subrange(i as int, x@.len() as int), y@.subrange(i as int, y@.len() as int)),
            x@ == a@,
            y@ == b@,
        decreases x.len() - i,
    {
        let ghost xs = x@.subrange(i as int, x@.len() as int);
        let ghost ys = y@.subrange(i as int, y@.len() as int);
        assert(xs.drop_first() =~= x@.subrange(i + 1, x@.len() as int));
        assert(ys.drop_first() =~= y@.subrange(i + 1, y@.len() as int));
        i = i + 1;
    }
    let ghost xs = x@.subrange(i as int, x@.len() as int);
    let ghost ys = y@.subrange(i as int, y@.len() as int);
    if i < x.len() && i < y.len() {
        assert(xs[0] == x@[i as int] && ys[0] == y@[i as int]);
    }
    if i == x.len() {
        i < y.len()
    } else if i == y.len() {
        false
    } else {
        (x[i] as u32) < (y[i] as u32)
    }
}

/// Whether texts are in strictly increasing order.
pub open spec fn strictly_sorted(s: Seq<Seq<char>>) -> bool {
    forall|i: int, j: int| 0 <= i < j < s.len() ==> text_lt(#[trigger] s[i], #[trigger] s[j])
}

/// A set of strings kept in increasing order, as `BTreeSet<String>` keeps them.
pub struct TextSet {
    items: Vec<String>,
}

impl View for TextSet {
    type V = Seq<Seq<char>>;

    closed spec fn view(&self) -> Seq<Seq<char>> {
        string_texts(self.items@)
    }
}

impl TextSet {
    /// The set is strictly sorted; every set is.
    #[verifier::type_invariant]
    pub closed spec fn wf(&self) -> bool {
        strictly_sorted(self@)
    }

    /// A well-formed set lists its texts in strictly increasing order.
    pub proof fn lemma_sorted(&self)
        requires
            self.wf(),
        ensures
            strictly_sorted(self@),
    {
    }

    /// The empty set.
    pub fn new() -> (s: TextSet)
        ensures
            s.wf(),
            s@ == Seq::<Seq<char>>::empty(),
    {
        let s = TextSet { items: Vec::new() };
        assert(s@ =~= Seq::<Seq<char>>::empty());
        s
    }

    /// The number of members.
    pub fn len(&self) -> (n: usize)
        ensures
            n == self@.len(),
    {
        self.items.len()
    }

    /// Whether a text is a member.
    pub fn contains(&self, x: &str) -> (r: bool)
        ensures
            r == self@.contains(x@),
    {
        let mut i: usize = 0;
        while i < self.items.len()
            invariant
                i <= self.items.len(),
                forall|j: int| 0 <= j < i ==> self@[j] != x@,
            decreases self.items.len() - i,
        {
            if str_eq(self.items[i].as_str(), x) {
                assert(self@[i as int] == x@);
                return true;
            }
            i = i + 1;
        }
        false
    }

    /// Adds a text, keeping the order; a member already present is kept once.
    pub fn insert(&mut self, x: &str)
        ensures
            final(self).wf(),
            final(self)@.to_set() == old(self)@.to_set().insert(x@),
    {
        proof {
            use_type_invariant(&*self);
        }
        let mut pos: usize = 0;
        while pos < self.items.len() && text_less(self.items[pos].as_str(), x)
            invariant
                pos <= self.items.len(),
                self.wf(),
                self@ == old(self)@,
                forall|j: int| 0 <= j < pos ==> text_lt(#[trigger] self@[j], x@),
            decreases self.items.len() - pos,
        {
            pos = pos + 1;
        }
        if pos < self.items.len() && str_eq(self.items[pos].as_str(), x) {
            assert(self@[pos as int] == x@);
            assert(self@.contains(x@));
            assert(self@.to_set() =~= self@.to_set().insert(x@));
            return;
        }
        let ghost before = self@;
        proof {
            if pos < before.len() {
                lemma_lt_total(before[pos as int], x@);
                assert forall|j: int| pos <= j < before.len() implies text_lt(x@, #[trigger] before[j]) by {
                    if j > pos {
                        lemma_lt_transitive(x@, before[pos as int], before[j]);
                    }
                }
            }
        }
        let mut items: Vec<String> = Vec::new();
        std::mem::swap(&mut items, &mut self.items);
        assert(string_texts(items@) == before);
        items.insert(pos, String::from_str(x));
        let ghost after = string_texts(items@);
        assert(after =~= before.insert(pos as int, x@));
        assert(after.to_set() =~= before.to_set().insert(x@)) by {
            assert forall|t: Seq<char>| #[trigger] after.to_set().contains(t) == before.to_set().insert(x@).contains(t) by {
                if after.contains(t) {
                    let k = choose|k: int| 0 <= k < after.len() && after[k] == t;
                    if k < pos {
                        assert(before[k] == t);
                    } else if k > pos {
                        assert(before[k - 1] == t);
                    }
                }
                if before.contains(t) {
                    let k = choose|k: int| 0 <= k < before.len() && before[k] == t;
                    if k < pos {
                        assert(after[k] == t);
                    } else {
                        assert(after[k + 1] == t);
                    }
                }
                if t == x@ {
                    assert(after[pos as int] == t);
                }
            }
        }
        assert forall|i: int, j: int| 0 <= i < j < after.len() implies text_lt(#[trigger] after[i], #[trigger] after[j]) by {
            if j < pos {
                assert(text_lt(before[i], before[j]));
            } else if j == pos {
                assert(text_lt(before[i], x@));
            } else if i < pos {
                assert(text_lt(before[i], before[j - 1]));
            } else if i == pos {
                assert(text_lt(x@, before[j - 1]));
            } else {
                assert(text_lt(before[i - 1], before[j - 1]));
            }
        }
        self.items = items;
    }

    /// Removes a text if it is a member.
    pub fn remove(&mut self, x: &str)
        ensures
            final(self).wf(),
            final(self)@.to_set() == old(self)@.to_set().remove(x@),
    {
        proof {
            use_type_invariant(&*self);
        }
        let mut i: usize = 0;
        while i < self.items.len()
            invariant
                i <= self.items.len(),
                self.wf(),
                self@ == old(self)@,
                forall|j: int| 0 <= j < i ==> self@[j] != x@,
            decreases self.items.len() - i,
        {
            if str_eq(self.items[i].as_str(), x) {
                let ghost before = self@;
                let mut items: Vec<String> = Vec::new();
                std::mem::swap(&mut items, &mut self.items);
                assert(string_texts(items@) == before);
                items.remove(i);
                let ghost after = string_texts(items@);
                assert(after =~= before.remove(i as int));
                proof {
                    assert forall|a: int, b: int| 0 <= a < b < after.len() implies text_lt(#[trigger] after[a], #[trigger] after[b]) by {
                        let a0 = if a < i { a } else { a + 1 };
                        let b0 = if b < i { b } else { b + 1 };
                        assert(text_lt(before[a0], before[b0]));
                    }
                    assert forall|t: Seq<char>| before.contains(t) && t != x@ implies after.contains(t) by {
                        let k = choose|k: int| 0 <= k < before.len() && before[k] == t;
                        if k < i {
                            assert(after[k] == t);
                        } else {
                            assert(k != i);
                            assert(after[k - 1] == t);
                        }
                    }
                    assert forall|t: Seq<char>| after.contains(t) implies before.contains(t) && t != x@ by {
                        let k = choose|k: int| 0 <= k < after.len() && after[k] == t;
                        let k0 = if k < i { k } else { k + 1 };
                        assert(before[k0] == t);
                        if t == x@ {
                            lemma_lt_irreflexive(x@);
                            if k0 < i {
                                assert(text_lt(before[k0], before[i as int]));
                            } else {
                                assert(text_lt(before[i as int], before[k0]));
                            }
                        }
                    }
                    assert(after.to_set() =~= before.to_set().remove(x@));
                }
                self.items = items;
                return;
            }
            i = i + 1;
        }
        assert(!self@.contains(x@));
        assert(self@.to_set() =~= old(self)@.to_set().remove(x@));
    }

    /// The members in increasing order, leaving the set empty.
    pub fn take_all(&mut self) -> (r: Vec<String>)
        ensures
            final(self).wf(),
            final(self)@ == Seq::<Seq<char>>::empty(),
            string_texts(r@) == old(self)@,
    {
        let mut r: Vec<String> = Vec::new();
        std::mem::swap(&mut r, &mut self.items);
        assert(self@ =~= Seq::<Seq<char>>::empty());
        r
    }
}

} // verus!
