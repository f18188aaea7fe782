//! A single conversion dictionary: a finite map from source phrases to
//! replacements, kept with the length of its longest key so that
//! maximum matching knows how far to look.

use vstd::prelude::*;

verus! {

/// The map that a list of entries describes, later entries winning.
pub open spec fn entries_map(e: Seq<(Vec<char>, Vec<char>)>) -> Map<Seq<char>, Seq<char>>
    decreases e.len(),
{
    if e.len() == 0 {
        Map::empty()
    } else {
        entries_map(e.drop_last()).insert(e.last().0@, e.last().1@)
    }
}

/// Inserts `pairs` into `m` one after the other, so that the last pair with a
/// given key decides its value.
pub open spec fn insert_all(m: Map<Seq<char>, Seq<char>>, pairs: Seq<(Seq<char>, Seq<char>)>) -> Map<
    Seq<char>,
    Seq<char>,
>
    decreases pairs.len(),
{
    if pairs.len() == 0 {
        m
    } else {
        insert_all(m, pairs.drop_last()).insert(pairs.last().0, pairs.last().1)
    }
}


/// A key that no pair has keeps what it had.
proof fn lemma_insert_all_absent(
    m: Map<Seq<char>, Seq<char>>,
    pairs: Seq<(Seq<char>, Seq<char>)>,
    k: Seq<char>,
)
    requires
        forall|i: int| 0 <= i < pairs.len() ==> #[trigger] pairs[i].0 != k,
    ensures
        insert_all(m, pairs).dom().contains(k) == m.dom().contains(k),
        insert_all(m, pairs)[k] == m[k],
    decreases pairs.len(),
{
    if pairs.len() > 0 {
        let d = pairs.drop_last();
        assert forall|i: int| 0 <= i < d.len() implies #[trigger] d[i].0 != k by {
            assert(d[i] == pairs[i]);
        }
        assert(pairs[pairs.len() - 1] == pairs.last());
        lemma_insert_all_absent(m, d, k);
    }
}

/// The last pair with a key decides that key's value.
proof fn lemma_insert_all_last(
    m: Map<Seq<char>, Seq<char>>,
    pairs: Seq<(Seq<char>, Seq<char>)>,
    k: Seq<char>,
    j: int,
)
    requires
        0 <= j < pairs.len(),
        pairs[j].0 == k,
        forall|i: int| j < i < pairs.len() ==> #[trigger] pairs[i].0 != k,
    ensures
        insert_all(m, pairs).dom().contains(k),
        insert_all(m, pairs)[k] == pairs[j].1,
    decreases pairs.len(),
{
    let d = pairs.drop_last();
    if j < pairs.len() - 1 {
        assert(pairs[pairs.len() - 1] == pairs.last());
        assert(d[j] == pairs[j]);
        assert forall|i: int| j < i < d.len() implies #[trigger] d[i].0 != k by {
            assert(d[i] == pairs[i]);
        }
        lemma_insert_all_last(m, d, k, j);
    }
}

/// A key is present after the insertions when it was before or some pair has it.
proof fn lemma_insert_all_dom(
    m: Map<Seq<char>, Seq<char>>,
    pairs: Seq<(Seq<char>, Seq<char>)>,
    k: Seq<char>,
)
    ensures
        insert_all(m, pairs).dom().contains(k) <==> (m.dom().contains(k) || exists|i: int|
            0 <= i < pairs.len() && #[trigger] pairs[i].0 == k),
    decreases pairs.len(),
{
    if pairs.len() > 0 {
        let d = pairs.drop_last();
        lemma_insert_all_dom(m, d, k);
        assert(pairs[pairs.len() - 1] == pairs.last());
        if exists|i: int| 0 <= i < d.len() && #[trigger] d[i].0 == k {
            let i = choose|i: int| 0 <= i < d.len() && #[trigger] d[i].0 == k;
            assert(pairs[i] == d[i]);
        }
        if exists|i: int| 0 <= i < pairs.len() && #[trigger] pairs[i].0 == k {
            let i = choose|i: int| 0 <= i < pairs.len() && #[trigger] pairs[i].0 == k;
            if i < d.len() {
                assert(pairs[i] == d[i]);
            }
        }
    }
}

/// What inserting pairs in order does to one key: the last pair with that
/// key decides its value; a key that no pair has keeps what it had.
pub proof fn law_insert_all_last_wins(
    m: Map<Seq<char>, Seq<char>>,
    pairs: Seq<(Seq<char>, Seq<char>)>,
    k: Seq<char>,
)
    ensures
        insert_all(m, pairs).dom().contains(k) <==> (m.dom().contains(k) || exists|i: int|
            0 <= i < pairs.len() && #[trigger] pairs[i].0 == k),
        forall|j: int|
            0 <= j < pairs.len() && #[trigger] pairs[j].0 == k && (forall|i: int|
                j < i < pairs.len() ==> #[trigger] pairs[i].0 != k) ==> insert_all(m, pairs)[k]
                == pairs[j].1,
        (forall|i: int| 0 <= i < pairs.len() ==> #[trigger] pairs[i].0 != k) ==> insert_all(
            m,
            pairs,
        )[k] == m[k],
{
    lemma_insert_all_dom(m, pairs, k);
    assert forall|j: int|
        0 <= j < pairs.len() && #[trigger] pairs[j].0 == k && (forall|i: int|
            j < i < pairs.len() ==> #[trigger] pairs[i].0 != k) implies insert_all(m, pairs)[k]
        == pairs[j].1 by {
        lemma_insert_all_last(m, pairs, k, j);
    }
    if forall|i: int| 0 <= i < pairs.len() ==> #[trigger] pairs[i].0 != k {
        lemma_insert_all_absent(m, pairs, k);
    }
}

/// The number of hash buckets of a dictionary.
pub const BUCKETS: usize = 4096;

/// The bucket that holds `k`: a mix of its first and last characters and
/// its length.
pub open spec fn bucket_of(k: Seq<char>) -> int {
    if k.len() == 0 {
        0
    } else {
        ((k[0] as u32 % 4096) as int * 31 + (k.last() as u32 % 4096) as int * 6 + k.len() % 4096) % 4096
    }
}

/// The bucket that holds `k`.
fn bucket_exec(k: &[char]) -> (r: usize)
    ensures
        r == bucket_of(k@),
        r < 4096,
{
    if k.len() == 0 {
        return 0;
    }
    let a: usize = (k[0] as u32 % 4096) as usize;
    let z: usize = (k[k.len() - 1] as u32 % 4096) as usize;
    let n: usize = k.len() % 4096;
    (a * 31 + z * 6 + n) % 4096
}

/// The entries of bucket `b`: keys distinct, each belonging to bucket `b`,
/// none longer than `max`.
pub open spec fn bucket_ok(e: Seq<(Vec<char>, Vec<char>)>, b: int, max: nat) -> bool {
    &&& forall|i: int, j: int| 0 <= i < j < e.len() ==> #[trigger] e[i].0@ != #[trigger] e[j].0@
    &&& forall|i: int| 0 <= i < e.len() ==> bucket_of(#[trigger] e[i].0@) == b
    &&& forall|i: int| 0 <= i < e.len() ==> (#[trigger] e[i]).0@.len() <= max
}

/// A conversion dictionary: entries spread over hash buckets.
pub struct Lexicon {
    buckets: Vec<Vec<(Vec<char>, Vec<char>)>>,
    max_len: usize,
}

impl Lexicon {
    /// The phrase map that the dictionary holds.
    pub closed spec fn view(&self) -> Map<Seq<char>, Seq<char>> {
        Map::new(
            |k: Seq<char>| entries_map(self.buckets@[bucket_of(k)]@).dom().contains(k),
            |k: Seq<char>| entries_map(self.buckets@[bucket_of(k)]@)[k],
        )
    }

    /// The recorded bound on key length.
    pub closed spec fn max_key_len(&self) -> nat {
        self.max_len as nat
    }

    /// Every bucket is well formed.
    pub closed spec fn wf(&self) -> bool {
        &&& self.buckets@.len() == 4096
        &&& forall|b: int| 0 <= b < 4096 ==> bucket_ok(#[trigger] self.buckets@[b]@, b, self.max_len as nat)
    }

    /// A well-formed dictionary holds no key longer than its bound.
    pub proof fn lemma_keys_bounded(&self, k: Seq<char>)
        requires
            self.wf(),
            self@.dom().contains(k),
        ensures
            k.len() <= self.max_key_len(),
    {
        let b = bucket_of(k);
        assert(0 <= b < 4096);
        let e = self.buckets@[b]@;
        assert(bucket_ok(e, b, self.max_len as nat));
        lemma_entries_map_dom(e, k);
        let j = choose|j: int| 0 <= j < e.len() && #[trigger] e[j].0@ == k;
        assert(e[j].0@.len() <= self.max_len);
    }

    /// An empty dictionary.
    pub fn new() -> (r: Lexicon)
        ensures
            r.wf(),
            r@ == Map::<Seq<char>, Seq<char>>::empty(),
            r.max_key_len() == 0,
    {
        let mut buckets: Vec<Vec<(Vec<char>, Vec<char>)>> = Vec::new();
        let mut i: usize = 0;
        while i < BUCKETS
            invariant
                i <= 4096,
                buckets@.len() == i,
                forall|b: int| 0 <= b < i ==> (#[trigger] buckets@[b])@.len() == 0,
            decreases 4096 - i,
        {
            buckets.push(Vec::new());
            i = i + 1;
        }
        let r = Lexicon { buckets, max_len: 0 };
        assert forall|b: int| 0 <= b < 4096 implies bucket_ok(#[trigger] r.buckets@[b]@, b, 0) by {
            assert(r.buckets@[b]@.len() == 0);
        }
        assert(r@ =~= Map::<Seq<char>, Seq<char>>::empty()) by {
            assert forall|k: Seq<char>| !#[trigger] r@.dom().contains(k) by {
                let b = bucket_of(k);
                assert(0 <= b < 4096);
                assert(r.buckets@[b]@ =~= Seq::<(Vec<char>, Vec<char>)>::empty());
            }
        }
        r
    }

    /// The length of the longest key, or a bound on it.
    pub fn max_len(&self) -> (r: usize)
        ensures
            r == self.max_key_len(),
    {
        self.max_len
    }

    /// The replacement for `key`, if the dictionary holds one.
    pub fn get(&self, key: &[char]) -> (r: Option<&Vec<char>>)
        requires
            self.wf(),
        ensures
            match r {
                Some(v) => self@.dom().contains(key@) && self@[key@] == v@,
                None => !self@.dom().contains(key@),
            },
    {
        let b = bucket_exec(key);
        let bucket = &self.buckets[b];
        proof {
            assert(bucket_ok(self.buckets@[b as int]@, b as int, self.max_len as nat));
        }
        let mut i: usize = 0;
        while i < bucket.len()
            invariant
                bucket@ == self.buckets@[b as int]@,
                bucket_ok(bucket@, b as int, self.max_len as nat),
                i <= bucket@.len(),
                forall|j: int| 0 <= j < i ==> #[trigger] bucket@[j].0@ != key@,
            decreases bucket.len() - i,
        {
            if crate::text::slice_eq(bucket[i].0.as_slice(), key) {
                proof {
                    lemma_entries_map_at(bucket@, i as int);
                }
                return Some(&bucket[i].1);
            }
            i = i + 1;
        }
        proof {
            lemma_entries_map_absent(bucket@, key@);
        }
        None
    }

    /// Sets the replacement of `key` to `value`, replacing an existing entry.
    pub fn insert(&mut self, key: Vec<char>, value: Vec<char>)
        requires
            old(self).wf(),
        ensures
            final(self).wf(),
            final(self)@ == old(self)@.insert(key@, value@),
            final(self).max_key_len() == if old(self).max_key_len() < key@.len() {
                key@.len()
            } else {
                old(self).max_key_len()
            },
    {
        let ghost kv = key@;
        let ghost vv = value@;
        let klen = key.len();
        let new_max = if self.max_len < klen {
            klen
        } else {
            self.max_len
        };
        let b = bucket_exec(key.as_slice());
        let ghost old_b = self.buckets@[b as int]@;
        proof {
            assert(bucket_ok(old_b, b as int, self.max_len as nat));
        }
        let found = find_in(&self.buckets[b], key.as_slice());
        match found {
            Some(i) => {
                let bucket = &mut self.buckets[b];
                bucket.set(i, (key, value));
            },
            None => {
                let bucket = &mut self.buckets[b];
                bucket.push((key, value));
            },
        }
        self.max_len = new_max;
        proof {
            let nb = self.buckets@[b as int]@;
            match found {
                Some(i) => {
                    lemma_entries_map_update(old_b, i as int, kv, vv);
                    assert(nb == old_b.update(i as int, nb[i as int]));
                    assert(entries_map(nb) == entries_map(old_b).insert(kv, vv));
                    assert forall|x: int, y: int| 0 <= x < y < nb.len() implies #[trigger] nb[x].0@
                        != #[trigger] nb[y].0@ by {
                        if x != i {
                            assert(nb[x] == old_b[x]);
                        }
                        if y != i {
                            assert(nb[y] == old_b[y]);
                        }
                    }
                    assert forall|x: int| 0 <= x < nb.len() implies bucket_of(#[trigger] nb[x].0@) == b && nb[x].0@.len() <= new_max by {
                        if x != i {
                            assert(nb[x] == old_b[x]);
                        }
                    }
                },
                None => {
                    assert(nb.drop_last() == old_b);
                    assert(nb.last().0@ == kv);
                    assert(entries_map(nb) == entries_map(old_b).insert(kv, vv));
                    assert forall|x: int, y: int| 0 <= x < y < nb.len() implies #[trigger] nb[x].0@
                        != #[trigger] nb[y].0@ by {
                        assert(nb[x] == old_b[x]);
                        if y < old_b.len() {
                            assert(nb[y] == old_b[y]);
                        }
                    }
                    assert forall|x: int| 0 <= x < nb.len() implies bucket_of(#[trigger] nb[x].0@) == b && nb[x].0@.len() <= new_max by {
                        if x < old_b.len() {
                            assert(nb[x] == old_b[x]);
                        }
                    }
                },
            }
            assert(bucket_ok(nb, b as int, new_max as nat));
            assert forall|c: int| 0 <= c < 4096 implies bucket_ok(#[trigger] self.buckets@[c]@, c, self.max_len as nat) by {
                if c != b {
                    assert(self.buckets@[c] == old(self).buckets@[c]);
                    let e = self.buckets@[c]@;
                    assert(bucket_ok(e, c, old(self).max_len as nat));
                    assert forall|x: int| 0 <= x < e.len() implies (#[trigger] e[x]).0@.len() <= new_max by {}
                }
            }
            assert(self@ =~= old(self)@.insert(kv, vv)) by {
                assert forall|k: Seq<char>| #[trigger] self@.dom().contains(k) == old(self)@.insert(kv, vv).dom().contains(k) && (self@.dom().contains(k) ==> self@[k] == old(self)@.insert(kv, vv)[k]) by {
                    let c = bucket_of(k);
                    if c != b {
                        assert(self.buckets@[c] == old(self).buckets@[c]);
                    }
                }
            }
        }
    }

    /// Inserts the pairs in order; the last pair with a given key wins.
    pub fn insert_pairs(&mut self, pairs: &Vec<(String, String)>)
        requires
            old(self).wf(),
        ensures
            final(self).wf(),
            final(self)@ == insert_all(old(self)@, crate::slot::pairs_view(pairs@)),
    {
        let ghost pv = crate::slot::pairs_view(pairs@);
        let mut i: usize = 0;
        while i < pairs.len()
            invariant
                self.wf(),
                i <= pairs@.len(),
                pv == crate::slot::pairs_view(pairs@),
                self@ == insert_all(old(self)@, pv.subrange(0, i as int)),
            decreases pairs.len() - i,
        {
            let k = crate::text::chars_of(pairs[i].0.as_str());
            let v = crate::text::chars_of(pairs[i].1.as_str());
            self.insert(k, v);
            proof {
                let sub = pv.subrange(0, (i + 1) as int);
                assert(sub.drop_last() == pv.subrange(0, i as int));
                assert(sub.last() == pv[i as int]);
            }
            i = i + 1;
        }
        proof {
            assert(pv.subrange(0, pairs@.len() as int) == pv);
        }
    }

    /// Inserts the entries of a dictionary text in order; the last entry
    /// with a given key wins.
    pub fn load_text(&mut self, text: &str)
        requires
            old(self).wf(),
        ensures
            final(self).wf(),
            final(self)@ == insert_all(old(self)@, dict_entries_from(text@, 0)),
    {
        let s = crate::text::chars_of(text);
        let n = s.len();
        let ghost start = self@;
        let ghost mut done: Seq<(Seq<char>, Seq<char>)> = Seq::empty();
        let mut pos: usize = 0;
        while pos < n
            invariant
                self.wf(),
                n == s@.len(),
                s@ == text@,
                pos <= n,
                self@ == insert_all(start, done),
                done + dict_entries_from(s@, pos as int) == dict_entries_from(s@, 0),
            decreases n - pos,
        {
            let mut e: usize = pos;
            while e < n && s[e] != '\n'
                invariant
                    pos <= e <= n,
                    n == s@.len(),
                    next_index(s@, '\n', pos as int) == next_index(s@, '\n', e as int),
                decreases n - e,
            {
                e = e + 1;
            }
            proof {
                assert(next_index(s@, '\n', e as int) == e);
            }
            let line = vstd::slice::slice_subrange(s.as_slice(), pos, e);
            let mut t: usize = 0;
            while t < line.len() && line[t] != '\t'
                invariant
                    t <= line@.len(),
                    next_index(line@, '\t', 0) == next_index(line@, '\t', t as int),
                decreases line.len() - t,
            {
                t = t + 1;
            }
            proof {
                assert(next_index(line@, '\t', t as int) == t);
            }
            let key: Vec<char>;
            let value: Vec<char>;
            if t < line.len() {
                key = crate::text::chars_to_vec(vstd::slice::slice_subrange(line, 0, t));
                value = crate::text::chars_to_vec(vstd::slice::slice_subrange(line, t + 1, line.len()));
            } else {
                key = crate::text::chars_to_vec(line);
                value = Vec::new();
            }
            let ghost x = parse_entry(line@);
            proof {
                assert(key@ == x.0);
                assert(value@ == x.1);
            }
            self.insert(key, value);
            let next = if e < n {
                e + 1
            } else {
                n
            };
            proof {
                lemma_next_index_bounds(s@, '\n', pos as int);
                assert(dict_entries_from(s@, pos as int) == seq![x] + dict_entries_from(s@, next as int));
                assert(done.push(x).drop_last() == done);
                assert(done.push(x) + dict_entries_from(s@, next as int) =~= done + (seq![x]
                    + dict_entries_from(s@, next as int)));
                done = done.push(x);
            }
            pos = next;
        }
        proof {
            assert(dict_entries_from(s@, pos as int) == Seq::<(Seq<char>, Seq<char>)>::empty());
            assert(done + Seq::<(Seq<char>, Seq<char>)>::empty() =~= done);
        }
    }

    /// Removes every entry.
    pub fn clear(&mut self)
        ensures
            final(self).wf(),
            final(self)@ == Map::<Seq<char>, Seq<char>>::empty(),
            final(self).max_key_len() == 0,
    {
        *self = Lexicon::new();
    }
}

/// The position in `s` of the entry with key `key`, if any.
fn find_in(e: &Vec<(Vec<char>, Vec<char>)>, key: &[char]) -> (r: Option<usize>)
    ensures
        match r {
            Some(i) => i < e@.len() && e@[i as int].0@ == key@,
            None => forall|j: int| 0 <= j < e@.len() ==> #[trigger] e@[j].0@ != key@,
        },
{
    let mut i: usize = 0;
    while i < e.len()
        invariant
            i <= e@.len(),
            forall|j: int| 0 <= j < i ==> #[trigger] e@[j].0@ != key@,
        decreases e.len() - i,
    {
        if crate::text::slice_eq(e[i].0.as_slice(), key) {
            return Some(i);
        }
        i = i + 1;
    }
    None
}

/// The first position at or after `i` where `s` holds `c`, or the length of `s`.
pub open spec fn next_index(s: Seq<char>, c: char, i: int) -> int
    decreases s.len() - i,
{
    if i < 0 || i >= s.len() {
        s.len() as int
    } else if s[i] == c {
        i
    } else {
        next_index(s, c, i + 1)
    }
}

/// `next_index` lies between its start and the length.
proof fn lemma_next_index_bounds(s: Seq<char>, c: char, i: int)
    requires
        0 <= i <= s.len(),
    ensures
        i <= next_index(s, c, i) <= s.len(),
    decreases s.len() - i,
{
    if i < s.len() && s[i] != c {
        lemma_next_index_bounds(s, c, i + 1);
    }
}

/// One line of a dictionary text: the key before the first tab and the
/// replacement after it; a line without a tab is a key with an empty
/// replacement.
pub open spec fn parse_entry(line: Seq<char>) -> (Seq<char>, Seq<char>) {
    let t = next_index(line, '\t', 0);
    if t < line.len() {
        (line.subrange(0, t), line.subrange(t + 1, line.len() as int))
    } else {
        (line, Seq::empty())
    }
}

/// The entries of a dictionary text from `pos` on: one per line, lines
/// ending at a newline or at the end of the text.
pub open spec fn dict_entries_from(s: Seq<char>, pos: int) -> Seq<(Seq<char>, Seq<char>)>
    decreases s.len() - pos,
{
    if pos < 0 || pos >= s.len() {
        Seq::empty()
    } else {
        let e = next_index(s, '\n', pos);
        if e < pos || e > s.len() {
            Seq::empty()
        } else if e == s.len() {
            seq![parse_entry(s.subrange(pos, e))]
        } else {
            seq![parse_entry(s.subrange(pos, e))] + dict_entries_from(s, e + 1)
        }
    }
}

/// The map of a dictionary whose text comes in parts, the parts read in order.
pub open spec fn load_parts(m: Map<Seq<char>, Seq<char>>, parts: Seq<Seq<char>>) -> Map<Seq<char>, Seq<char>>
    decreases parts.len(),
{
    if parts.len() == 0 {
        m
    } else {
        insert_all(load_parts(m, parts.drop_last()), dict_entries_from(parts.last(), 0))
    }
}

/// An entry's key maps to that entry's value when keys are distinct.
proof fn lemma_entries_map_at(e: Seq<(Vec<char>, Vec<char>)>, i: int)
    requires
        0 <= i < e.len(),
        forall|a: int, b: int| 0 <= a < b < e.len() ==> #[trigger] e[a].0@ != #[trigger] e[b].0@,
    ensures
        entries_map(e).dom().contains(e[i].0@),
        entries_map(e)[e[i].0@] == e[i].1@,
    decreases e.len(),
{
    if i == e.len() - 1 {
    } else {
        let d = e.drop_last();
        assert(d[i] == e[i]);
        assert forall|a: int, b: int| 0 <= a < b < d.len() implies #[trigger] d[a].0@ != #[trigger] d[b].0@ by {
            assert(d[a] == e[a]);
            assert(d[b] == e[b]);
        }
        lemma_entries_map_at(d, i);
        assert(e.last() == e[e.len() - 1]);
    }
}

/// A key that no entry has is not in the map.
proof fn lemma_entries_map_absent(e: Seq<(Vec<char>, Vec<char>)>, k: Seq<char>)
    requires
        forall|j: int| 0 <= j < e.len() ==> #[trigger] e[j].0@ != k,
    ensures
        !entries_map(e).dom().contains(k),
    decreases e.len(),
{
    if e.len() > 0 {
        let d = e.drop_last();
        assert forall|j: int| 0 <= j < d.len() implies #[trigger] d[j].0@ != k by {
            assert(d[j] == e[j]);
        }
        lemma_entries_map_absent(d, k);
        assert(e.last() == e[e.len() - 1]);
    }
}

/// Every key of the map is the key of some entry.
proof fn lemma_entries_map_dom(e: Seq<(Vec<char>, Vec<char>)>, k: Seq<char>)
    requires
        entries_map(e).dom().contains(k),
    ensures
        exists|j: int| 0 <= j < e.len() && #[trigger] e[j].0@ == k,
    decreases e.len(),
{
    if e.len() > 0 {
        let d = e.drop_last();
        if e.last().0@ == k {
            assert(e[e.len() - 1].0@ == k);
        } else {
            lemma_entries_map_dom(d, k);
            let j = choose|j: int| 0 <= j < d.len() && #[trigger] d[j].0@ == k;
            assert(e[j] == d[j]);
        }
    }
}

/// Replacing the entry at `i` by one with the same key sets that key's value.
proof fn lemma_entries_map_update(
    e: Seq<(Vec<char>, Vec<char>)>,
    i: int,
    k: Seq<char>,
    v: Seq<char>,
)
    requires
        0 <= i < e.len(),
        e[i].0@ == k,
        forall|a: int, b: int| 0 <= a < b < e.len() ==> #[trigger] e[a].0@ != #[trigger] e[b].0@,
    ensures
        forall|nk: Vec<char>, nv: Vec<char>|
            nk@ == k && nv@ == v ==> #[trigger] entries_map(e.update(i, (nk, nv))) == entries_map(
                e,
            ).insert(k, v),
    decreases e.len(),
{
    assert forall|nk: Vec<char>, nv: Vec<char>|
        nk@ == k && nv@ == v implies #[trigger] entries_map(e.update(i, (nk, nv))) == entries_map(
        e,
    ).insert(k, v) by {
        let u = e.update(i, (nk, nv));
        if i == e.len() - 1 {
            assert(u.drop_last() == e.drop_last());
            assert forall|j: int| 0 <= j < e.drop_last().len() implies #[trigger] e.drop_last()[j].0@ != k by {
                assert(e.drop_last()[j] == e[j]);
            }
            lemma_entries_map_absent(e.drop_last(), k);
            assert(entries_map(u) =~= entries_map(e).insert(k, v));
        } else {
            let d = e.drop_last();
            assert(u.drop_last() == d.update(i, (nk, nv)));
            assert(d[i] == e[i]);
            assert forall|a: int, b: int| 0 <= a < b < d.len() implies #[trigger] d[a].0@ != #[trigger] d[b].0@ by {
                assert(d[a] == e[a]);
                assert(d[b] == e[b]);
            }
            lemma_entries_map_update(d, i, k, v);
            assert(entries_map(d.update(i, (nk, nv))) == entries_map(d).insert(k, v));
            assert(e.last() == e[e.len() - 1]);
            assert(e.last().0@ != k);
            assert(u.last() == e.last());
            assert(entries_map(u) =~= entries_map(e).insert(k, v));
        }
    }
}

} // verus!
