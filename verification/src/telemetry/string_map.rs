//! A map from text keys to text values, the store behind custom properties
//! and context tags.
use vstd::prelude::*;
use vstd::string::*;
use vstd::utf8::*;

verus! {

/// Whether no key occurs twice among `entries`.
pub open spec fn distinct_keys(entries: Seq<(String, String)>) -> bool {
    forall|i: int, j: int|
        0 <= i < j < entries.len() ==> (#[trigger] entries[i]).0@ != (#[trigger] entries[j]).0@
}

/// Whether `key` is the key of one of `entries`.
pub open spec fn has_key(entries: Seq<(String, String)>, key: Seq<char>) -> bool {
    exists|i: int| 0 <= i < entries.len() && (#[trigger] entries[i]).0@ == key
}

/// The map that a list of key/value pairs stands for.
pub open spec fn entries_map(entries: Seq<(String, String)>) -> Map<Seq<char>, Seq<char>> {
    Map::new(
        |key: Seq<char>| has_key(entries, key),
        |key: Seq<char>|
            entries[choose|i: int| 0 <= i < entries.len() && (#[trigger] entries[i]).0@ == key].1@,
    )
}

/// Keys of `entries`, in order.
pub open spec fn keys_of(entries: Seq<(String, String)>) -> Seq<Seq<char>> {
    entries.map_values(|e: (String, String)| e.0@)
}

/// With distinct keys, each pair of the list is an entry of its map.
pub proof fn lemma_entries_map_at(entries: Seq<(String, String)>, i: int)
    requires
        distinct_keys(entries),
        0 <= i < entries.len(),
    ensures
        entries_map(entries).contains_key(entries[i].0@),
        entries_map(entries)[entries[i].0@] == entries[i].1@,
{
    let key = entries[i].0@;
    assert(has_key(entries, key));
    let j = choose|j: int| 0 <= j < entries.len() && (#[trigger] entries[j]).0@ == key;
    if j < i {
        assert(entries[j].0@ != entries[i].0@);
    } else if i < j {
        assert(entries[i].0@ != entries[j].0@);
    }
}

/// Appending a pair with a new key adds that entry to the map.
pub proof fn lemma_entries_map_push(entries: Seq<(String, String)>, e: (String, String))
    requires
        distinct_keys(entries),
        !has_key(entries, e.0@),
    ensures
        distinct_keys(entries.push(e)),
        entries_map(entries.push(e)) == entries_map(entries).insert(e.0@, e.1@),
{
    let s = entries.push(e);
    assert forall|i: int, j: int| 0 <= i < j < s.len() implies (#[trigger] s[i]).0@ != (
    #[trigger] s[j]).0@ by {
        if j == entries.len() {
            assert(s[i] == entries[i]);
        } else {
            assert(s[i] == entries[i] && s[j] == entries[j]);
        }
    }
    let m = entries_map(entries).insert(e.0@, e.1@);
    assert forall|k: Seq<char>| entries_map(s).contains_key(k) == m.contains_key(k) by {
        if has_key(s, k) {
            let i = choose|i: int| 0 <= i < s.len() && (#[trigger] s[i]).0@ == k;
            if i < entries.len() {
                assert(s[i] == entries[i]);
            }
        }
        if has_key(entries, k) {
            let i = choose|i: int| 0 <= i < entries.len() && (#[trigger] entries[i]).0@ == k;
            assert(s[i] == entries[i]);
        }
        if k == e.0@ {
            assert(s[entries.len() as int] == e);
        }
    }
    assert forall|k: Seq<char>| #[trigger] entries_map(s).contains_key(k) implies entries_map(s)[k]
        == m[k] by {
        let i = choose|i: int| 0 <= i < s.len() && (#[trigger] s[i]).0@ == k;
        lemma_entries_map_at(s, i);
        if i < entries.len() {
            assert(s[i] == entries[i]);
            lemma_entries_map_at(entries, i);
        } else {
            assert(s[i] == e);
        }
    }
    assert(entries_map(s) =~= m);
}

/// Putting a pair with a new key at position `p` adds that entry to the map.
pub proof fn lemma_entries_map_insert(entries: Seq<(String, String)>, p: int, e: (String, String))
    requires
        distinct_keys(entries),
        !has_key(entries, e.0@),
        0 <= p <= entries.len(),
    ensures
        distinct_keys(entries.insert(p, e)),
        entries_map(entries.insert(p, e)) == entries_map(entries).insert(e.0@, e.1@),
{
    let s = entries.insert(p, e);
    assert forall|i: int| 0 <= i < s.len() implies #[trigger] s[i] == (if i < p {
        entries[i]
    } else if i == p {
        e
    } else {
        entries[i - 1]
    }) by {}
    assert forall|i: int, j: int| 0 <= i < j < s.len() implies (#[trigger] s[i]).0@ != (
    #[trigger] s[j]).0@ by {
        if i != p && j != p {
            let a = if i < p { i } else { i - 1 };
            let b = if j < p { j } else { j - 1 };
            assert(entries[a].0@ != entries[b].0@);
        } else if i == p {
            assert(entries[j - 1].0@ != e.0@);
        } else {
            assert(entries[i].0@ != e.0@);
        }
    }
    let m = entries_map(entries).insert(e.0@, e.1@);
    assert forall|k: Seq<char>| entries_map(s).contains_key(k) == m.contains_key(k) by {
        if has_key(s, k) {
            let i = choose|i: int| 0 <= i < s.len() && (#[trigger] s[i]).0@ == k;
            if i < p {
                assert(s[i] == entries[i]);
            } else if i > p {
                assert(s[i] == entries[i - 1]);
            }
        }
        if has_key(entries, k) {
            let i = choose|i: int| 0 <= i < entries.len() && (#[trigger] entries[i]).0@ == k;
            if i < p {
                assert(s[i] == entries[i]);
            } else {
                assert(s[i + 1] == entries[i]);
            }
        }
        if k == e.0@ {
            assert(s[p] == e);
        }
    }
    assert forall|k: Seq<char>| #[trigger] entries_map(s).contains_key(k) implies entries_map(s)[k]
        == m[k] by {
        let i = choose|i: int| 0 <= i < s.len() && (#[trigger] s[i]).0@ == k;
        lemma_entries_map_at(s, i);
        if i < p {
            lemma_entries_map_at(entries, i);
        } else if i > p {
            lemma_entries_map_at(entries, i - 1);
        }
    }
    assert(entries_map(s) =~= m);
}

/// A pair put where its key falls between the keys before and after it keeps
/// the keys in order.
pub proof fn lemma_sorted_insert(entries: Seq<(String, String)>, p: int, e: (String, String))
    requires
        sorted_keys(entries),
        0 <= p <= entries.len(),
        forall|i: int| 0 <= i < p ==> key_before((#[trigger] entries[i]).0@, e.0@),
        forall|i: int| p <= i < entries.len() ==> key_before(e.0@, (#[trigger] entries[i]).0@),
    ensures
        sorted_keys(entries.insert(p, e)),
{
    let s = entries.insert(p, e);
    assert forall|i: int, j: int| 0 <= i < j < s.len() implies key_before(
        (#[trigger] s[i]).0@,
        (#[trigger] s[j]).0@,
    ) by {
        if i < p && j < p {
            assert(s[i] == entries[i] && s[j] == entries[j]);
        } else if i < p && j == p {
            assert(s[i] == entries[i]);
        } else if i < p {
            assert(s[i] == entries[i] && s[j] == entries[j - 1]);
        } else if i == p {
            assert(s[j] == entries[j - 1]);
        } else {
            assert(s[i] == entries[i - 1] && s[j] == entries[j - 1]);
        }
    }
}

/// Taking out the pair at `i` takes its key out of the map, and keeps the
/// keys in order.
pub proof fn lemma_entries_map_remove(entries: Seq<(String, String)>, i: int)
    requires
        sorted_keys(entries),
        0 <= i < entries.len(),
    ensures
        sorted_keys(entries.remove(i)),
        entries_map(entries.remove(i)) == entries_map(entries).remove(entries[i].0@),
{
    let s = entries.remove(i);
    let key = entries[i].0@;
    lemma_sorted_distinct(entries);
    assert forall|j: int| 0 <= j < s.len() implies #[trigger] s[j] == (if j < i {
        entries[j]
    } else {
        entries[j + 1]
    }) by {}
    assert forall|a: int, b: int| 0 <= a < b < s.len() implies key_before(
        (#[trigger] s[a]).0@,
        (#[trigger] s[b]).0@,
    ) by {
        let x = if a < i { a } else { a + 1 };
        let y = if b < i { b } else { b + 1 };
        assert(key_before(entries[x].0@, entries[y].0@));
    }
    lemma_sorted_distinct(s);
    let m = entries_map(entries).remove(key);
    assert forall|k: Seq<char>| entries_map(s).contains_key(k) == m.contains_key(k) by {
        if has_key(s, k) {
            let j = choose|j: int| 0 <= j < s.len() && (#[trigger] s[j]).0@ == k;
            let x = if j < i { j } else { j + 1 };
            assert(entries[x].0@ == k);
            assert(entries[x].0@ != key);
        }
        if has_key(entries, k) && k != key {
            let j = choose|j: int| 0 <= j < entries.len() && (#[trigger] entries[j]).0@ == k;
            if j < i {
                assert(s[j] == entries[j]);
            } else {
                assert(j != i);
                assert(s[j - 1] == entries[j]);
            }
        }
    }
    assert forall|k: Seq<char>| #[trigger] entries_map(s).contains_key(k) implies entries_map(s)[k]
        == m[k] by {
        let j = choose|j: int| 0 <= j < s.len() && (#[trigger] s[j]).0@ == k;
        lemma_entries_map_at(s, j);
        if j < i {
            lemma_entries_map_at(entries, j);
        } else {
            lemma_entries_map_at(entries, j + 1);
        }
    }
    assert(entries_map(s) =~= m);
}

/// Replacing the pair at `i` by one with the same key changes that entry only.
pub proof fn lemma_entries_map_update(entries: Seq<(String, String)>, i: int, e: (String, String))
    requires
        distinct_keys(entries),
        0 <= i < entries.len(),
        entries[i].0@ == e.0@,
    ensures
        distinct_keys(entries.update(i, e)),
        entries_map(entries.update(i, e)) == entries_map(entries).insert(e.0@, e.1@),
{
    let s = entries.update(i, e);
    assert forall|a: int, b: int| 0 <= a < b < s.len() implies (#[trigger] s[a]).0@ != (
    #[trigger] s[b]).0@ by {
        assert(s[a].0@ == entries[a].0@ && s[b].0@ == entries[b].0@);
    }
    let m = entries_map(entries).insert(e.0@, e.1@);
    assert forall|k: Seq<char>| entries_map(s).contains_key(k) == m.contains_key(k) by {
        if has_key(s, k) {
            let j = choose|j: int| 0 <= j < s.len() && (#[trigger] s[j]).0@ == k;
            assert(s[j].0@ == entries[j].0@);
        }
        if has_key(entries, k) {
            let j = choose|j: int| 0 <= j < entries.len() && (#[trigger] entries[j]).0@ == k;
            assert(s[j].0@ == entries[j].0@);
        }
        if k == e.0@ {
            assert(s[i] == e);
        }
    }
    assert forall|k: Seq<char>| #[trigger] entries_map(s).contains_key(k) implies entries_map(s)[k]
        == m[k] by {
        let j = choose|j: int| 0 <= j < s.len() && (#[trigger] s[j]).0@ == k;
        lemma_entries_map_at(s, j);
        if j != i {
            assert(s[j] == entries[j]);
            lemma_entries_map_at(entries, j);
        }
    }
    assert(entries_map(s) =~= m);
}

/// The map of a list with distinct keys has as many entries as the list.
pub proof fn lemma_entries_map_len(entries: Seq<(String, String)>)
    requires
        distinct_keys(entries),
    ensures
        entries_map(entries).dom() == keys_of(entries).to_set(),
        entries_map(entries).len() == entries.len(),
{
    let keys = keys_of(entries);
    assert forall|k: Seq<char>| entries_map(entries).dom().contains(k) == keys.to_set().contains(
        k,
    ) by {
        if has_key(entries, k) {
            let i = choose|i: int| 0 <= i < entries.len() && (#[trigger] entries[i]).0@ == k;
            assert(keys[i] == k);
        }
        if keys.contains(k) {
            let i = choose|i: int| 0 <= i < keys.len() && keys[i] == k;
            assert(entries[i].0@ == k);
        }
    }
    assert(entries_map(entries).dom() =~= keys.to_set());
    assert(keys.no_duplicates()) by {
        assert forall|i: int, j: int| 0 <= i < keys.len() && 0 <= j < keys.len() && i != j implies keys[i]
            != keys[j] by {
            if i < j {
                assert(entries[i].0@ != entries[j].0@);
            } else {
                assert(entries[j].0@ != entries[i].0@);
            }
        }
    }
    keys.unique_seq_to_set();
}

/// Whether the byte string `a` comes before `b` in lexicographic order (a
/// proper prefix comes first).
pub open spec fn bytes_before(a: Seq<u8>, b: Seq<u8>) -> bool
    decreases a.len(),
{
    if a.len() == 0 {
        b.len() > 0
    } else if b.len() == 0 {
        false
    } else if a[0] != b[0] {
        a[0] < b[0]
    } else {
        bytes_before(a.drop_first(), b.drop_first())
    }
}

/// Whether key `a` comes before key `b`: the order of their UTF-8 bytes,
/// which is the order in which `String`s compare.
pub open spec fn key_before(a: Seq<char>, b: Seq<char>) -> bool {
    bytes_before(encode_utf8(a), encode_utf8(b))
}

/// Whether the keys of `entries` stand in strictly increasing order.
pub open spec fn sorted_keys(entries: Seq<(String, String)>) -> bool {
    forall|i: int, j: int|
        0 <= i < j < entries.len() ==> key_before(
            (#[trigger] entries[i]).0@,
            (#[trigger] entries[j]).0@,
        )
}

/// No byte string comes before itself, and of two different ones exactly
/// one comes first.
pub proof fn lemma_bytes_before_total(a: Seq<u8>, b: Seq<u8>)
    ensures
        !(bytes_before(a, b) && bytes_before(b, a)),
        a != b ==> bytes_before(a, b) || bytes_before(b, a),
        !bytes_before(a, a),
    decreases a.len(),
{
    if a.len() > 0 {
        lemma_bytes_before_total(a.drop_first(), a.drop_first());
    }
    if a.len() > 0 && b.len() > 0 {
        lemma_bytes_before_total(a.drop_first(), b.drop_first());
        if a[0] == b[0] && a.drop_first() == b.drop_first() {
            assert(a =~= b) by {
                assert forall|i: int| 0 <= i < a.len() implies a[i] == b[i] by {
                    if i > 0 {
                        assert(a[i] == a.drop_first()[i - 1]);
                        assert(b[i] == b.drop_first()[i - 1]);
                    }
                }
            }
        }
    } else if a.len() == 0 && b.len() == 0 {
        assert(a =~= b);
    }
}

/// The order of byte strings is transitive.
pub proof fn lemma_bytes_before_transitive(a: Seq<u8>, b: Seq<u8>, c: Seq<u8>)
    requires
        bytes_before(a, b),
        bytes_before(b, c),
    ensures
        bytes_before(a, c),
    decreases a.len(),
{
    if a.len() > 0 && b.len() > 0 && c.len() > 0 && a[0] == b[0] && b[0] == c[0] {
        lemma_bytes_before_transitive(a.drop_first(), b.drop_first(), c.drop_first());
    }
}

/// Two byte strings that agree on their first `i` bytes compare as what
/// follows those bytes does.
proof fn lemma_bytes_before_skip(a: Seq<u8>, b: Seq<u8>, i: int)
    requires
        0 <= i <= a.len(),
        i <= b.len(),
        forall|j: int| 0 <= j < i ==> a[j] == b[j],
    ensures
        bytes_before(a, b) == bytes_before(a.skip(i), b.skip(i)),
    decreases i,
{
    if i > 0 {
        assert forall|j: int| 0 <= j < i - 1 implies a.drop_first()[j] == b.drop_first()[j] by {
            assert(a[j + 1] == b[j + 1]);
        }
        lemma_bytes_before_skip(a.drop_first(), b.drop_first(), i - 1);
        assert(a.drop_first().skip(i - 1) =~= a.skip(i));
        assert(b.drop_first().skip(i - 1) =~= b.skip(i));
    } else {
        assert(a.skip(0) =~= a);
        assert(b.skip(0) =~= b);
    }
}

/// No key comes before itself; of two different keys exactly one comes
/// first; and the order is transitive.
pub proof fn lemma_key_before_order(a: Seq<char>, b: Seq<char>, c: Seq<char>)
    ensures
        !key_before(a, a),
        !(key_before(a, b) && key_before(b, a)),
        a != b ==> key_before(a, b) || key_before(b, a),
        key_before(a, b) && key_before(b, c) ==> key_before(a, c),
{
    lemma_bytes_before_total(encode_utf8(a), encode_utf8(b));
    lemma_bytes_before_total(encode_utf8(a), encode_utf8(a));
    encode_utf8_decode_utf8(a);
    encode_utf8_decode_utf8(b);
    if key_before(a, b) && key_before(b, c) {
        lemma_bytes_before_transitive(encode_utf8(a), encode_utf8(b), encode_utf8(c));
    }
}

/// Keys in strictly increasing order are distinct.
pub proof fn lemma_sorted_distinct(entries: Seq<(String, String)>)
    requires
        sorted_keys(entries),
    ensures
        distinct_keys(entries),
{
    assert forall|i: int, j: int| 0 <= i < j < entries.len() implies (#[trigger] entries[i]).0@
        != (#[trigger] entries[j]).0@ by {
        lemma_key_before_order(entries[i].0@, entries[j].0@, entries[j].0@);
    }
}

/// How two keys compare.
pub enum KeyOrder {
    /// The first key comes first.
    Before,
    /// The keys are equal.
    Same,
    /// The second key comes first.
    After,
}

/// Compares two keys by their UTF-8 bytes.
pub fn compare_keys(a: &str, b: &str) -> (r: KeyOrder)
    ensures
        r is Before <==> key_before(a@, b@),
        r is Same <==> a@ == b@,
        r is After <==> key_before(b@, a@),
{
    let ab = a.as_bytes();
    let bb = b.as_bytes();
    proof {
        encode_utf8_decode_utf8(a@);
        encode_utf8_decode_utf8(b@);
        assert(ab@ == encode_utf8(a@));
        assert(bb@ == encode_utf8(b@));
        lemma_key_before_order(a@, b@, b@);
    }
    let mut i: usize = 0;
    while i < ab.len() && i < bb.len()
        invariant
            ab@ == encode_utf8(a@),
            bb@ == encode_utf8(b@),
            0 <= i <= ab@.len(),
            i <= bb@.len(),
            forall|j: int| 0 <= j < i ==> ab@[j] == bb@[j],
        decreases ab@.len() - i,
    {
        if ab[i] != bb[i] {
            proof {
                lemma_bytes_before_skip(ab@, bb@, i as int);
                lemma_bytes_before_skip(bb@, ab@, i as int);
                assert(ab@.skip(i as int)[0] == ab@[i as int]);
                assert(bb@.skip(i as int)[0] == bb@[i as int]);
            }
            if ab[i] < bb[i] {
                return KeyOrder::Before;
            } else {
                return KeyOrder::After;
            }
        }
        i += 1;
    }
    proof {
        lemma_bytes_before_skip(ab@, bb@, i as int);
        lemma_bytes_before_skip(bb@, ab@, i as int);
    }
    if ab.len() == bb.len() {
        proof {
            assert(ab@ =~= bb@);
        }
        KeyOrder::Same
    } else if i == ab.len() {
        KeyOrder::Before
    } else {
        KeyOrder::After
    }
}

/// Whether two texts are equal, compared through their UTF-8 bytes.
pub fn str_equal(a: &str, b: &str) -> (r: bool)
    ensures
        r == (a@ == b@),
{
    let ab = a.as_bytes();
    let bb = b.as_bytes();
    proof {
        encode_utf8_decode_utf8(a@);
        encode_utf8_decode_utf8(b@);
        assert(ab@ == encode_utf8(a@));
        assert(bb@ == encode_utf8(b@));
    }
    if ab.len() != bb.len() {
        assert(a@ != b@);
        return false;
    }
    let mut i: usize = 0;
    while i < ab.len()
        invariant
            ab@ == encode_utf8(a@),
            bb@ == encode_utf8(b@),
            ab@.len() == bb@.len(),
            0 <= i <= ab@.len(),
            forall|j: int| 0 <= j < i ==> ab@[j] == bb@[j],
        decreases ab@.len() - i,
    {
        if ab[i] != bb[i] {
            assert(ab@[i as int] != bb@[i as int]);
            assert(a@ != b@);
            return false;
        }
        i += 1;
    }
    proof {
        assert(ab@ =~= bb@);
        assert(a@ == b@);
    }
    true
}

/// A map from text keys to text values, kept in increasing order of the keys.
#[derive(Debug)]
pub struct StringMap {
    entries: Vec<(String, String)>,
}

impl View for StringMap {
    type V = Map<Seq<char>, Seq<char>>;

    closed spec fn view(&self) -> Map<Seq<char>, Seq<char>> {
        entries_map(self.entries@)
    }
}

impl Clone for StringMap {
    /// A copy of the map, entry by entry.
    fn clone(&self) -> (r: Self)
        ensures
            r@ == self@,
    {
        proof {
            use_type_invariant(self);
        }
        let mut entries: Vec<(String, String)> = Vec::new();
        let mut i: usize = 0;
        while i < self.entries.len()
            invariant
                0 <= i <= self.entries@.len(),
                sorted_keys(self.entries@),
                entries@ == self.entries@.take(i as int),
            decreases self.entries@.len() - i,
        {
            let key = self.entries[i].0.clone();
            let value = self.entries[i].1.clone();
            entries.push((key, value));
            proof {
                assert(self.entries@.take(i as int + 1) =~= self.entries@.take(i as int).push(
                    self.entries@[i as int],
                ));
            }
            i += 1;
        }
        proof {
            assert(self.entries@.take(i as int) =~= self.entries@);
        }
        StringMap { entries }
    }
}

impl StringMap {
    #[verifier::type_invariant]
    closed spec fn keys_are_sorted(&self) -> bool {
        sorted_keys(self.entries@)
    }

    /// Where `key` stands among the entries: how many keys come before it,
    /// and whether the next key is `key` itself.
    fn position(&self, key: &str) -> (r: (usize, bool))
        ensures
            r.0 <= self.entries@.len(),
            forall|i: int| 0 <= i < r.0 ==> key_before((#[trigger] self.entries@[i]).0@, key@),
            r.1 ==> r.0 < self.entries@.len() && self.entries@[r.0 as int].0@ == key@,
            !r.1 ==> forall|i: int|
                r.0 <= i < self.entries@.len() ==> key_before(key@, (#[trigger] self.entries@[i]).0@),
    {
        proof {
            use_type_invariant(self);
        }
        let mut i: usize = 0;
        while i < self.entries.len()
            invariant
                0 <= i <= self.entries@.len(),
                sorted_keys(self.entries@),
                forall|j: int| 0 <= j < i ==> key_before((#[trigger] self.entries@[j]).0@, key@),
            decreases self.entries@.len() - i,
        {
            match compare_keys(self.entries[i].0.as_str(), key) {
                KeyOrder::Before => {},
                KeyOrder::Same => {
                    return (i, true);
                },
                KeyOrder::After => {
                    proof {
                        assert forall|j: int| i <= j < self.entries@.len() implies key_before(
                            key@,
                            (#[trigger] self.entries@[j]).0@,
                        ) by {
                            if j > i {
                                lemma_key_before_order(
                                    key@,
                                    self.entries@[i as int].0@,
                                    self.entries@[j].0@,
                                );
                            }
                        }
                    }
                    return (i, false);
                },
            }
            i += 1;
        }
        (i, false)
    }

    /// An empty map.
    pub fn new() -> (r: Self)
        ensures
            r@ == Map::<Seq<char>, Seq<char>>::empty(),
    {
        let r = StringMap { entries: Vec::new() };
        proof {
            assert(entries_map(r.entries@) =~= Map::<Seq<char>, Seq<char>>::empty());
        }
        r
    }

    /// Position of `key` among the entries, if it is there.
    fn find(&self, key: &str) -> (r: Option<usize>)
        ensures
            match r {
                Some(i) => i < self.entries@.len() && self.entries@[i as int].0@ == key@,
                None => !has_key(self.entries@, key@),
            },
    {
        let mut i: usize = 0;
        while i < self.entries.len()
            invariant
                0 <= i <= self.entries@.len(),
                forall|j: int| 0 <= j < i ==> (#[trigger] self.entries@[j]).0@ != key@,
            decreases self.entries@.len() - i,
        {
            if str_equal(self.entries[i].0.as_str(), key) {
                return Some(i);
            }
            i += 1;
        }
        None
    }

    /// Number of entries.
    pub fn len(&self) -> (r: usize)
        ensures
            r == self@.len(),
    {
        proof {
            use_type_invariant(self);
            lemma_sorted_distinct(self.entries@);
            lemma_entries_map_len(self.entries@);
        }
        self.entries.len()
    }

    /// Whether the map has no entry.
    pub fn is_empty(&self) -> (r: bool)
        ensures
            r == (self@.len() == 0),
    {
        self.len() == 0
    }

    /// Whether `key` has an entry.
    pub fn contains_key(&self, key: &str) -> (r: bool)
        ensures
            r == self@.contains_key(key@),
    {
        self.find(key).is_some()
    }

    /// The value of `key`, if it has an entry.
    pub fn get(&self, key: &str) -> (r: Option<&String>)
        ensures
            match r {
                Some(v) => self@.contains_key(key@) && self@[key@] == v@,
                None => !self@.contains_key(key@),
            },
    {
        proof {
            use_type_invariant(self);
            lemma_sorted_distinct(self.entries@);
        }
        match self.find(key) {
            Some(i) => {
                proof {
                    lemma_entries_map_at(self.entries@, i as int);
                }
                Some(&self.entries[i].1)
            },
            None => None,
        }
    }

    /// Sets the value of `key`, and gives back the value it replaced.
    pub fn insert(&mut self, key: String, value: String) -> (r: Option<String>)
        ensures
            final(self)@ == old(self)@.insert(key@, value@),
            match r {
                Some(v) => old(self)@.contains_key(key@) && old(self)@[key@] == v@,
                None => !old(self)@.contains_key(key@),
            },
    {
        proof {
            use_type_invariant(&*self);
        }
        let (i, found) = self.position(key.as_str());
        let ghost before = self.entries@;
        proof {
            lemma_sorted_distinct(before);
        }
        if found {
            proof {
                lemma_entries_map_at(before, i as int);
                lemma_entries_map_update(before, i as int, (key, value));
                assert(before.remove(i as int).insert(i as int, (key, value)) =~= before.update(
                    i as int,
                    (key, value),
                ));
                let after = before.update(i as int, (key, value));
                assert forall|a: int, b: int| 0 <= a < b < after.len() implies key_before(
                    (#[trigger] after[a]).0@,
                    (#[trigger] after[b]).0@,
                ) by {
                    assert(after[a].0@ == before[a].0@ && after[b].0@ == before[b].0@);
                }
            }
            let mut entries: Vec<(String, String)> = Vec::new();
            std::mem::swap(&mut entries, &mut self.entries);
            let old_entry = entries.remove(i);
            entries.insert(i, (key, value));
            self.entries = entries;
            Some(old_entry.1)
        } else {
            proof {
                assert(!has_key(before, key@)) by {
                    if has_key(before, key@) {
                        let j = choose|j: int| 0 <= j < before.len() && (#[trigger] before[j]).0@
                            == key@;
                        lemma_key_before_order(key@, key@, key@);
                    }
                }
                lemma_entries_map_insert(before, i as int, (key, value));
                lemma_sorted_insert(before, i as int, (key, value));
            }
            let mut entries: Vec<(String, String)> = Vec::new();
            std::mem::swap(&mut entries, &mut self.entries);
            entries.insert(i, (key, value));
            self.entries = entries;
            None
        }
    }

    /// Takes the entry of `key` out of the map, and gives back its value.
    pub fn remove(&mut self, key: &str) -> (r: Option<String>)
        ensures
            final(self)@ == old(self)@.remove(key@),
            match r {
                Some(v) => old(self)@.contains_key(key@) && old(self)@[key@] == v@,
                None => !old(self)@.contains_key(key@),
            },
    {
        proof {
            use_type_invariant(&*self);
            lemma_sorted_distinct(self.entries@);
        }
        match self.find(key) {
            Some(i) => {
                let ghost before = self.entries@;
                proof {
                    lemma_entries_map_at(before, i as int);
                    lemma_entries_map_remove(before, i as int);
                }
                let mut entries: Vec<(String, String)> = Vec::new();
                std::mem::swap(&mut entries, &mut self.entries);
                let removed = entries.remove(i);
                self.entries = entries;
                Some(removed.1)
            },
            None => {
                proof {
                    assert(self@.remove(key@) =~= self@);
                }
                None
            },
        }
    }

    /// The entries, each key once, in increasing order of the keys.
    pub fn entries(&self) -> (r: &Vec<(String, String)>)
        ensures
            sorted_keys(r@),
            distinct_keys(r@),
            entries_map(r@) == self@,
    {
        proof {
            use_type_invariant(self);
            lemma_sorted_distinct(self.entries@);
        }
        &self.entries
    }

    /// All entries of `a`, then those of `b`: where both have a key, the
    /// value of `b` wins.
    pub fn combine(a: StringMap, b: StringMap) -> (r: StringMap)
        ensures
            r@ == a@.union_prefer_right(b@),
    {
        proof {
            use_type_invariant(&b);
            lemma_sorted_distinct(b.entries@);
        }
        let ghost bs = b.entries@;
        let mut r = a;
        let mut i: usize = 0;
        proof {
            assert(entries_map(bs.take(0)) =~= Map::<Seq<char>, Seq<char>>::empty());
            assert(a@.union_prefer_right(Map::<Seq<char>, Seq<char>>::empty()) =~= a@);
        }
        while i < b.entries.len()
            invariant
                0 <= i <= bs.len(),
                bs == b.entries@,
                distinct_keys(bs),
                r@ == a@.union_prefer_right(entries_map(bs.take(i as int))),
            decreases bs.len() - i,
        {
            let key = b.entries[i].0.clone();
            let value = b.entries[i].1.clone();
            proof {
                let pre = bs.take(i as int);
                assert(bs.take(i as int + 1) =~= pre.push(bs[i as int]));
                assert(distinct_keys(pre));
                assert(!has_key(pre, bs[i as int].0@)) by {
                    if has_key(pre, bs[i as int].0@) {
                        let j = choose|j: int| 0 <= j < pre.len() && (#[trigger] pre[j]).0@
                            == bs[i as int].0@;
                        assert(pre[j] == bs[j]);
                    }
                }
                lemma_entries_map_push(pre, bs[i as int]);
                assert(a@.union_prefer_right(entries_map(pre)).insert(key@, value@)
                    =~= a@.union_prefer_right(entries_map(pre).insert(key@, value@)));
            }
            r.insert(key, value);
            i += 1;
        }
        proof {
            assert(bs.take(bs.len() as int) =~= bs);
        }
        r
    }
}

} // verus!
