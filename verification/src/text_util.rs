//! Character statistics of caption text.
//!
//! [`CharCounts`] counts how often each character occurs. Counts of separate
//! pieces of a text can be merged, so a text can be counted in parallel
//! pieces and the counts combined in any grouping and order.

use std::collections::HashMap;
use vstd::prelude::*;
use vstd::multiset::Multiset;

verus! {

broadcast use {
    vstd::std_specs::hash::group_hash_axioms,
    vstd::multiset::group_multiset_axioms,
    vstd::multiset::group_multiset_properties,
    vstd::seq_lib::group_to_multiset_ensures,
};

/// The number of characters (counted with multiplicity) whose character
/// occurs more than once: the sum of the counts of the repeated characters.
pub open spec fn duplicated_total(m: Multiset<char>) -> nat {
    m.filter(|c: char| m.count(c) > 1).len()
}

/// `n` copies of `c`.
pub open spec fn copies(c: char, n: nat) -> Multiset<char>
    decreases n,
{
    if n == 0 {
        Multiset::empty()
    } else {
        copies(c, (n - 1) as nat).insert(c)
    }
}

proof fn lemma_copies(c: char, n: nat)
    ensures
        forall|x: char| #[trigger] copies(c, n).count(x) == if x == c { n } else { 0 },
        copies(c, n).len() == n,
    decreases n,
{
    if n > 0 {
        lemma_copies(c, (n - 1) as nat);
    }
}

/// Distinct characters have distinct scalar values.
proof fn lemma_char_key_injective(a: char, b: char)
    ensures
        (a as u32 == b as u32) <==> a == b,
{
    vstd::utf8::char_u32_cast(a, a as u32);
    vstd::utf8::char_u32_cast(b, b as u32);
}

/// The part of `m` on the characters of `keys` that satisfy `p`.
spec fn restrict(m: Multiset<char>, p: spec_fn(char) -> bool, keys: Seq<char>) -> Multiset<char> {
    m.filter(|x: char| p(x) && keys.contains(x))
}

proof fn lemma_restrict_push(m: Multiset<char>, p: spec_fn(char) -> bool, keys: Seq<char>, k: char)
    requires
        !keys.contains(k),
    ensures
        restrict(m, p, keys.push(k)) =~= restrict(m, p, keys).add(
            if p(k) { copies(k, m.count(k)) } else { Multiset::empty() },
        ),
        restrict(m, p, keys.push(k)).len() <= m.len(),
{
    lemma_copies(k, m.count(k));
    let bigger = restrict(m, p, keys.push(k));
    assert forall|x: char| #[trigger] bigger.count(x) <= m.count(x) by {}
    assert(bigger.subset_of(m));
    assert(m.sub(bigger).len() == m.len() - bigger.len());
    assert forall|x: char|
        #[trigger] keys.push(k).contains(x) <==> (keys.contains(x) || x == k) by {
        if x == k {
            assert(keys.push(k)[keys.len() as int] == k);
        }
        if keys.contains(x) {
            let i = choose|i: int| 0 <= i < keys.len() && keys[i] == x;
            assert(keys.push(k)[i] == x);
        }
    }
}

proof fn lemma_restrict_empty(m: Multiset<char>, p: spec_fn(char) -> bool)
    ensures
        restrict(m, p, Seq::empty()) =~= Multiset::empty(),
{
}

/// Counts of the characters of a text.
pub struct CharCounts {
    /// Count of each character, keyed by its scalar value.
    counts: HashMap<u32, usize>,
    /// Each counted character once, in the order first seen.
    chars: Vec<char>,
    /// Number of characters counted.
    total: usize,
    model: Ghost<Multiset<char>>,
}

impl View for CharCounts {
    type V = Multiset<char>;

    closed spec fn view(&self) -> Multiset<char> {
        self.model@
    }
}

impl CharCounts {
    /// The representation agrees with the counts it stands for.
    pub closed spec fn wf(&self) -> bool {
        &&& self.chars@.no_duplicates()
        &&& forall|c: char|
            #![trigger self.model@.count(c)]
            {
                &&& self.counts@.contains_key(c as u32) <==> self.model@.count(c) > 0
                &&& self.model@.count(c) > 0 ==> self.counts@[c as u32] == self.model@.count(c)
                &&& self.model@.count(c) > 0 <==> self.chars@.contains(c)
            }
        &&& self.total == self.model@.len()
    }

    /// No characters counted.
    pub fn new() -> (r: CharCounts)
        ensures
            r.wf(),
            r@ =~= Multiset::empty(),
    {
        CharCounts {
            counts: HashMap::new(),
            chars: Vec::new(),
            total: 0,
            model: Ghost(Multiset::empty()),
        }
    }

    /// How many characters were counted.
    pub fn total(&self) -> (r: usize)
        requires
            self.wf(),
        ensures
            r == self@.len(),
    {
        self.total
    }

    /// How often `c` was counted.
    pub fn count_of(&self, c: char) -> (r: usize)
        requires
            self.wf(),
        ensures
            r == self@.count(c),
    {
        let k = c as u32;
        match self.counts.get(&k) {
            Some(n) => *n,
            None => 0,
        }
    }

    /// Counts `n` more occurrences of `c`.
    fn add_copies(&mut self, c: char, n: usize)
        requires
            old(self).wf(),
            old(self)@.len() + n <= usize::MAX,
        ensures
            final(self).wf(),
            final(self)@ =~= old(self)@.add(copies(c, n as nat)),
    {
        proof {
            lemma_copies(c, n as nat);
        }
        let ghost old_model = self.model@;
        let ghost old_chars = self.chars@;
        let k = c as u32;
        match self.counts.get(&k) {
            Some(m) => {
                proof {
                    assert(old_model.count(c) > 0);
                    assert(old_model.count(c) <= old_model.len());
                }
                let m1 = *m + n;
                self.counts.insert(k, m1);
            },
            None => {
                if n > 0 {
                    self.counts.insert(k, n);
                    self.chars.push(c);
                }
            },
        }
        self.total = self.total + n;
        self.model = Ghost(old_model.add(copies(c, n as nat)));
        proof {
            assert forall|x: char| #[trigger] self.model@.count(x) > 0 <==> self.chars@.contains(x) by {
                if x != c {
                    if old_chars.contains(x) {
                        let i = choose|i: int| 0 <= i < old_chars.len() && old_chars[i] == x;
                        assert(self.chars@[i] == x);
                    }
                } else if n > 0 && old_model.count(c) == 0 {
                    assert(self.chars@[old_chars.len() as int] == c);
                }
            }
            assert forall|x: char| #[trigger] self.model@.count(x) > 0 implies self.counts@[x
                as u32] == self.model@.count(x) by {
                lemma_char_key_injective(x, c);
            }
            assert forall|x: char| #[trigger] self.model@.count(x) > 0 <==> self.counts@.contains_key(x as u32) by {
                lemma_char_key_injective(x, c);
            }
        }
    }

    /// Counts one more occurrence of `c`.
    pub fn add_char(&mut self, c: char)
        requires
            old(self).wf(),
            old(self)@.len() < usize::MAX,
        ensures
            final(self).wf(),
            final(self)@ =~= old(self)@.insert(c),
    {
        self.add_copies(c, 1);
        proof {
            lemma_copies(c, 1);
        }
    }

    /// Adds the counts of `other` to these counts.
    pub fn merge(&mut self, other: &CharCounts)
        requires
            old(self).wf(),
            other.wf(),
            old(self)@.len() + other@.len() <= usize::MAX,
        ensures
            final(self).wf(),
            final(self)@ =~= old(self)@.add(other@),
    {
        let ghost p = |x: char| true;
        let ghost base = self@;
        let n = other.chars.len();
        proof {
            lemma_restrict_empty(other@, p);
            assert(other.chars@.take(0) =~= Seq::<char>::empty());
        }
        let mut i: usize = 0;
        while i < n
            invariant
                n == other.chars@.len(),
                i <= n,
                other.wf(),
                self.wf(),
                self@ =~= base.add(restrict(other@, p, other.chars@.take(i as int))),
                base.len() + other@.len() <= usize::MAX,
                p == (|x: char| true),
            decreases n - i,
        {
            let c = other.chars[i];
            let k = other.count_of(c);
            proof {
                assert(other.chars@.take(i as int + 1) =~= other.chars@.take(i as int).push(c));
                assert(!other.chars@.take(i as int).contains(c)) by {
                    if other.chars@.take(i as int).contains(c) {
                        let j = choose|j: int| 0 <= j < i && other.chars@.take(i as int)[j] == c;
                        assert(other.chars@[j] == other.chars@[i as int]);
                    }
                }
                lemma_restrict_push(other@, p, other.chars@.take(i as int), c);
                lemma_copies(c, k as nat);
                assert(p(c));
                let before = restrict(other@, p, other.chars@.take(i as int));
                let after = restrict(other@, p, other.chars@.take(i as int + 1));
                assert(after =~= before.add(copies(c, k as nat)));
                assert(after.len() == before.len() + k);
                assert(self@.len() == base.len() + before.len());
                assert(base.add(after) =~= base.add(before).add(copies(c, k as nat)));
            }
            self.add_copies(c, k);
            i = i + 1;
        }
        proof {
            assert(other.chars@.take(n as int) =~= other.chars@);
            assert(restrict(other@, p, other.chars@) =~= other@) by {
                assert forall|x: char| #[trigger] other@.count(x) > 0 implies other.chars@.contains(x) by {
                    assert(other.model@.count(x) > 0);
                }
            }
        }
    }

    /// The sum of the counts of the characters counted more than once.
    pub fn duplicate_total(&self) -> (r: usize)
        requires
            self.wf(),
        ensures
            r == duplicated_total(self@),
    {
        let ghost m = self@;
        let ghost p = |x: char| m.count(x) > 1;
        let n = self.chars.len();
        let mut acc: usize = 0;
        let mut i: usize = 0;
        proof {
            lemma_restrict_empty(m, p);
            assert(self.chars@.take(0) =~= Seq::<char>::empty());
        }
        while i < n
            invariant
                n == self.chars@.len(),
                i <= n,
                self.wf(),
                m == self@,
                p == (|x: char| m.count(x) > 1),
                acc == restrict(m, p, self.chars@.take(i as int)).len(),
            decreases n - i,
        {
            let c = self.chars[i];
            let k = self.count_of(c);
            proof {
                assert(self.chars@.take(i as int + 1) =~= self.chars@.take(i as int).push(c));
                assert(!self.chars@.take(i as int).contains(c)) by {
                    if self.chars@.take(i as int).contains(c) {
                        let j = choose|j: int| 0 <= j < i && self.chars@.take(i as int)[j] == c;
                        assert(self.chars@[j] == self.chars@[i as int]);
                    }
                }
                lemma_restrict_push(m, p, self.chars@.take(i as int), c);
                lemma_copies(c, k as nat);
            }
            if k > 1 {
                acc = acc + k;
            }
            i = i + 1;
        }
        proof {
            assert(self.chars@.take(n as int) =~= self.chars@);
            assert(restrict(m, p, self.chars@) =~= m.filter(|c: char| m.count(c) > 1)) by {
                assert forall|x: char| #[trigger] m.count(x) > 0 implies self.chars@.contains(x) by {
                    assert(self.model@.count(x) > 0);
                }
            }
        }
        acc
    }
}

/// Counts the characters of `s`.
pub fn count_chars(s: &str) -> (r: CharCounts)
    ensures
        r.wf(),
        r@ =~= s@.to_multiset(),
{
    broadcast use vstd::string::group_string_axioms;

    let len = s.unicode_len();
    let mut counts = CharCounts::new();
    let ghost chars = s@;
    proof {
        assert(chars.take(0) =~= Seq::<char>::empty());
    }
    for c in it: s.chars()
        invariant
            chars == s@,
            len == chars.len(),
            it.seq() == chars,
            counts.wf(),
            counts@ =~= chars.take(it.index() as int).to_multiset(),
    {
        let ghost i = it.index();
        proof {
            assert(chars.take(i as int + 1) =~= chars.take(i as int).push(c));
        }
        counts.add_char(c);
    }
    proof {
        assert(chars.take(chars.len() as int) =~= chars);
    }
    counts
}

/// The number of characters of `input` whose character occurs more than
/// once in `input`: the sum of the counts of its repeated characters.
pub fn count_duplicate_characters(input: String) -> (r: usize)
    ensures
        r == duplicated_total(input@.to_multiset()),
{
    let counts = count_chars(input.as_str());
    counts.duplicate_total()
}

/// Counting a text in two pieces and merging the counts gives the counts of
/// the whole text.
pub proof fn law_counts_of_pieces_merge(a: Seq<char>, b: Seq<char>)
    ensures
        (a + b).to_multiset() == a.to_multiset().add(b.to_multiset()),
{
    vstd::seq_lib::lemma_multiset_commutative(a, b);
}

/// Merging counts is commutative and associative, so counts of pieces may
/// be merged in any grouping and order with the same result.
pub proof fn law_merge_order_irrelevant(a: Multiset<char>, b: Multiset<char>, c: Multiset<char>)
    ensures
        a.add(b) == b.add(a),
        a.add(b).add(c) == a.add(b.add(c)),
        a.add(Multiset::empty()) == a,
{
    assert(a.add(b) =~= b.add(a));
    assert(a.add(b).add(c) =~= a.add(b.add(c)));
    assert(a.add(Multiset::empty()) =~= a);
}

/// The duplicate total is never 1 (a repeated character is counted at least
/// twice) and never exceeds the number of characters.
pub proof fn law_duplicate_total_range(m: Multiset<char>)
    ensures
        duplicated_total(m) != 1,
        duplicated_total(m) <= m.len(),
{
    let f = m.filter(|c: char| m.count(c) > 1);
    assert forall|x: char| #[trigger] f.count(x) <= m.count(x) by {}
    assert(f.subset_of(m));
    assert(m.sub(f).len() == m.len() - f.len());
    if f.len() == 1 {
        vstd::multiset::lemma_multiset_empty_len(f);
        let x = choose|x: char| 0 < f.count(x);
        assert(f.count(x) > 1);
        assert(f.count(x) <= f.len());
    }
}

/// The duplicate total adds up over texts that share no character: it is a
/// sum with one term per character.
pub proof fn law_duplicate_total_additive(a: Multiset<char>, b: Multiset<char>)
    requires
        forall|c: char| a.count(c) == 0 || b.count(c) == 0,
    ensures
        duplicated_total(a.add(b)) == duplicated_total(a) + duplicated_total(b),
{
    let m = a.add(b);
    let f = m.filter(|c: char| m.count(c) > 1);
    let fa = a.filter(|c: char| a.count(c) > 1);
    let fb = b.filter(|c: char| b.count(c) > 1);
    assert forall|x: char| #[trigger] f.count(x) == fa.add(fb).count(x) by {
        assert(f.count(x) == if m.count(x) > 1 { m.count(x) } else { 0 });
        assert(fa.count(x) == if a.count(x) > 1 { a.count(x) } else { 0 });
        assert(fb.count(x) == if b.count(x) > 1 { b.count(x) } else { 0 });
    }
    assert(f =~= fa.add(fb));
}

/// The term of one character: `n` copies of a character count `n` when
/// `n > 1`, else nothing.
pub proof fn law_duplicate_total_of_one_char(c: char, n: nat)
    ensures
        duplicated_total(copies(c, n)) == if n > 1 { n } else { 0 },
{
    lemma_copies(c, n);
    let m = copies(c, n);
    let f = m.filter(|x: char| m.count(x) > 1);
    if n > 1 {
        assert(f =~= m);
    } else {
        assert(f =~= Multiset::empty());
    }
}

/// When every character of a text occurs at least twice, every character
/// counts: the duplicate total is the length.
pub proof fn law_duplicate_total_all_repeated(m: Multiset<char>)
    requires
        forall|c: char| m.count(c) == 0 || m.count(c) >= 2,
    ensures
        duplicated_total(m) == m.len(),
{
    let f = m.filter(|x: char| m.count(x) > 1);
    assert forall|x: char| #[trigger] f.count(x) == m.count(x) by {
        assert(m.count(x) == 0 || m.count(x) >= 2);
    }
    assert(f =~= m);
}

/// The duplicate total of a text is zero exactly when no character of the
/// text occurs twice.
pub proof fn law_duplicate_total_zero_iff_distinct(s: Seq<char>)
    ensures
        duplicated_total(s.to_multiset()) == 0 <==> s.no_duplicates(),
{
    let m = s.to_multiset();
    let f = m.filter(|c: char| m.count(c) > 1);
    vstd::multiset::lemma_multiset_empty_len(f);
    if s.no_duplicates() {
        s.lemma_multiset_has_no_duplicates();
        assert(f =~= Multiset::empty());
    }
    if f.len() == 0 {
        assert forall|x: char| m.contains(x) implies m.count(x) == 1 by {
            assert(f.count(x) == 0);
        }
        s.lemma_multiset_has_no_duplicates_conv();
    }
}

} // verus!
