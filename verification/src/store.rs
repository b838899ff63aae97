use vstd::prelude::*;

verus! {

/// Whether `c` may stand in a stored file name as it is: an ASCII letter or
/// digit, `_` or `-`.
pub open spec fn is_safe_char(c: char) -> bool {
    ||| ('0' <= c && c <= '9')
    ||| ('a' <= c && c <= 'z')
    ||| ('A' <= c && c <= 'Z')
    ||| c == '_'
    ||| c == '-'
}

/// The character that stands for `c` in a file name.
pub open spec fn safe_char(c: char) -> char {
    if is_safe_char(c) {
        c
    } else {
        '_'
    }
}

/// The file name under which a key is kept: each character of the key in
/// turn, with every unsafe one replaced by `_`.
pub open spec fn sanitized(key: Seq<char>) -> Seq<char> {
    key.map_values(|c: char| safe_char(c))
}

/// Sanitizing is idempotent: a file name made from a key is kept as it is,
/// and every character of a file name is safe.
pub proof fn law_sanitize_idempotent(key: Seq<char>)
    ensures
        sanitized(sanitized(key)) == sanitized(key),
        sanitized(key).len() == key.len(),
        forall|i: int| 0 <= i < key.len() ==> is_safe_char(#[trigger] sanitized(key)[i]),
{
    assert(sanitized(sanitized(key)) =~= sanitized(key));
}

/// A key made only of safe characters is its own file name.
pub proof fn law_safe_key_unchanged(key: Seq<char>)
    requires
        forall|i: int| 0 <= i < key.len() ==> is_safe_char(#[trigger] key[i]),
    ensures
        sanitized(key) == key,
{
    assert(sanitized(key) =~= key);
}

/// Each character of a file name is the key's character at the same place
/// when that is an ASCII letter (`a`-`z`, `A`-`Z`), an ASCII digit, `_` or
/// `-`, and `_` otherwise; the name is as long as the key.
pub proof fn law_sanitize_each_char(key: Seq<char>)
    ensures
        sanitized(key).len() == key.len(),
        forall|i: int|
            0 <= i < key.len() ==> #[trigger] sanitized(key)[i] == (if ('0' <= key[i] && key[i]
                <= '9') || ('a' <= key[i] && key[i] <= 'z') || ('A' <= key[i] && key[i] <= 'Z')
                || key[i] == '_' || key[i] == '-' {
                key[i]
            } else {
                '_'
            }),
{
}

/// Every ASCII letter, digit, `_` and `-` is safe, and nothing else is: a
/// one-character key is its own file name exactly for these characters, and
/// is `_` for any other.
pub proof fn law_safe_chars_are_ascii_alphanumeric(c: char)
    ensures
        is_safe_char(c) <==> (('0' <= c && c <= '9') || ('a' <= c && c <= 'z') || ('A' <= c && c
            <= 'Z') || c == '_' || c == '-'),
        (('0' <= c && c <= '9') || ('a' <= c && c <= 'z') || ('A' <= c && c <= 'Z') || c == '_'
            || c == '-') ==> sanitized(seq![c]) == seq![c],
        !(('0' <= c && c <= '9') || ('a' <= c && c <= 'z') || ('A' <= c && c <= 'Z') || c == '_'
            || c == '-') ==> sanitized(seq![c]) == seq!['_'],
{
    assert(sanitized(seq![c]) =~= seq![safe_char(c)]);
}

/// Two distinct keys made of ASCII letters, digits, `_` and `-` are kept
/// under distinct file names, so saving one never overwrites the other.
pub proof fn law_plain_keys_get_distinct_files(k1: Seq<char>, k2: Seq<char>)
    requires
        forall|i: int|
            0 <= i < k1.len() ==> ('0' <= #[trigger] k1[i] && k1[i] <= '9') || ('a' <= k1[i] && k1[i]
                <= 'z') || ('A' <= k1[i] && k1[i] <= 'Z') || k1[i] == '_' || k1[i] == '-',
        forall|i: int|
            0 <= i < k2.len() ==> ('0' <= #[trigger] k2[i] && k2[i] <= '9') || ('a' <= k2[i] && k2[i]
                <= 'z') || ('A' <= k2[i] && k2[i] <= 'Z') || k2[i] == '_' || k2[i] == '-',
        k1 != k2,
    ensures
        sanitized(k1) != sanitized(k2),
        sanitized(k1) == k1,
        sanitized(k2) == k2,
{
    law_sanitize_each_char(k1);
    law_sanitize_each_char(k2);
    assert(sanitized(k1) =~= k1);
    assert(sanitized(k2) =~= k2);
}

/// Appends one character to a string.
#[verifier::external_body]
fn push_char(s: &mut String, c: char)
    ensures
        final(s)@ == old(s)@.push(c),
{
    s.push(c);
}

fn char_is_safe(c: char) -> (b: bool)
    ensures
        b == is_safe_char(c),
{
    ('0' <= c && c <= '9') || ('a' <= c && c <= 'z') || ('A' <= c && c <= 'Z') || c == '_'
        || c == '-'
}

/// Turns a key into a file name: ASCII letters, digits, `_` and `-` are kept,
/// every other character becomes `_`. The name has as many characters as
/// the key.
pub fn sanitize_key(key: &str) -> (safe: String)
    ensures
        safe@ == sanitized(key@),
{
    let mut safe = String::new();
    broadcast use vstd::string::axiom_spec_iter;
    for c in it: key.chars()
        invariant
            it.seq() == key@,
            safe@ == sanitized(key@.take(it.index() as int)),
    {
        assert(key@.take(it.index() + 1) == key@.take(it.index() as int).push(c));
        if char_is_safe(c) {
            push_char(&mut safe, c);
        } else {
            push_char(&mut safe, '_');
        }
    }
    assert(key@.take(key@.len() as int) == key@);
    safe
}

/// What a read hands back, seen as text.
pub open spec fn text_of(r: Option<String>) -> Option<Seq<char>> {
    match r {
        Some(s) => Some(s@),
        None => None,
    }
}

/// A backend that keeps one raw JSON text per key.
///
/// A store that sets `keeps_contents` to `true` promises that its reads and
/// writes behave as those of a map from keys to texts, given by `contents`:
/// a read gives back what the last successful write of that key wrote, and a
/// failed write changes nothing. A store that sets `writes_succeed` promises
/// that no write fails. Each write keeps to `write_outcome`, which a store
/// may state for itself. Stores that state none of these promise nothing.
pub trait Storage {
    /// Whether this store behaves as the map `contents`.
    open spec fn keeps_contents() -> bool {
        false
    }

    /// Whether every write to this store succeeds.
    open spec fn writes_succeed() -> bool {
        false
    }

    /// The texts held, by key.
    open spec fn contents(&self) -> Map<Seq<char>, Seq<char>> {
        Map::empty()
    }

    /// Whether a write of `value` under `key` may take the store from `self`
    /// to `after` and answer `r`: what this store's own writes do.
    open spec fn write_outcome(
        &self,
        after: &Self,
        key: Seq<char>,
        value: Seq<char>,
        r: Result<(), std::io::Error>,
    ) -> bool {
        true
    }

    /// Returns the raw JSON text stored for `key`, if any.
    fn get_raw(&self, key: &str) -> (r: Option<String>)
        ensures
            Self::keeps_contents() ==> text_of(r) == self.contents().get(key@),
    ;

    /// Stores the raw JSON text `value` for `key`.
    fn save_raw(&mut self, key: &str, value: &str) -> (r: Result<(), std::io::Error>)
        ensures
            old(self).write_outcome(&*final(self), key@, value@, r),
            Self::writes_succeed() ==> r is Ok,
            Self::keeps_contents() ==> final(self).contents() == (if r is Ok {
                old(self).contents().insert(key@, value@)
            } else {
                old(self).contents()
            }),
    ;
}

/// Whether no key occurs twice among `entries`.
pub open spec fn keys_distinct(entries: Seq<(String, String)>) -> bool {
    forall|i: int, j: int| 0 <= i < j < entries.len() ==> entries[i].0@ != entries[j].0@
}

/// Whether the entry at `i` is the one for key `k`.
pub open spec fn key_at(entries: Seq<(String, String)>, k: Seq<char>, i: int) -> bool {
    0 <= i < entries.len() && entries[i].0@ == k
}

/// The texts that a list of entries holds, by key.
pub open spec fn texts_of(entries: Seq<(String, String)>) -> Map<Seq<char>, Seq<char>> {
    Map::new(
        |k: Seq<char>| exists|i: int| key_at(entries, k, i),
        |k: Seq<char>| entries[choose|i: int| key_at(entries, k, i)].1@,
    )
}

/// In a list whose keys are distinct, each entry gives the text of its key.
proof fn lemma_entry_text(entries: Seq<(String, String)>, i: int)
    requires
        keys_distinct(entries),
        0 <= i < entries.len(),
    ensures
        texts_of(entries).contains_key(entries[i].0@),
        texts_of(entries)[entries[i].0@] == entries[i].1@,
{
    let k = entries[i].0@;
    assert(key_at(entries, k, i));
    let j = choose|j: int| key_at(entries, k, j);
    assert(key_at(entries, k, j));
    if j < i {
        assert(entries[j].0@ != entries[i].0@);
    } else if i < j {
        assert(entries[i].0@ != entries[j].0@);
    }
}

/// A store held in memory, for tests and examples.
pub struct MemoryStore {
    entries: Vec<(String, String)>,
}

impl MemoryStore {
    #[verifier::type_invariant]
    spec fn well_formed(self) -> bool {
        keys_distinct(self.entries@)
    }

    /// Creates an empty store.
    pub fn new() -> (s: Self)
        ensures
            s@ == Map::<Seq<char>, Seq<char>>::empty(),
    {
        let s = MemoryStore { entries: Vec::new() };
        assert(s@ =~= Map::<Seq<char>, Seq<char>>::empty());
        s
    }

    /// The position of `key` among the entries, if it is there.
    fn find(&self, key: &String) -> (r: Option<usize>)
        ensures
            match r {
                Some(i) => key_at(self.entries@, key@, i as int),
                None => forall|i: int| !key_at(self.entries@, key@, i),
            },
    {
        let mut i: usize = 0;
        while i < self.entries.len()
            invariant
                i <= self.entries@.len(),
                forall|j: int| 0 <= j < i ==> !key_at(self.entries@, key@, j),
            decreases self.entries@.len() - i,
        {
            if self.entries[i].0 == *key {
                return Some(i);
            }
            i = i + 1;
        }
        None
    }
}

impl View for MemoryStore {
    type V = Map<Seq<char>, Seq<char>>;

    closed spec fn view(&self) -> Map<Seq<char>, Seq<char>> {
        texts_of(self.entries@)
    }
}

impl Storage for MemoryStore {
    open spec fn keeps_contents() -> bool {
        true
    }

    open spec fn writes_succeed() -> bool {
        true
    }

    open spec fn contents(&self) -> Map<Seq<char>, Seq<char>> {
        self@
    }

    open spec fn write_outcome(
        &self,
        after: &Self,
        key: Seq<char>,
        value: Seq<char>,
        r: Result<(), std::io::Error>,
    ) -> bool {
        r is Ok && after@ == self@.insert(key, value)
    }

    fn get_raw(&self, key: &str) -> (r: Option<String>)
        ensures
            text_of(r) == self@.get(key@),
    {
        proof {
            use_type_invariant(self);
        }
        let k = key.to_owned();
        match self.find(&k) {
            Some(i) => {
                proof {
                    lemma_entry_text(self.entries@, i as int);
                }
                Some(self.entries[i].1.clone())
            },
            None => {
                assert(!self@.dom().contains(key@));
                None
            },
        }
    }

    fn save_raw(&mut self, key: &str, value: &str) -> (r: Result<(), std::io::Error>)
        ensures
            r is Ok,
            final(self)@ == old(self)@.insert(key@, value@),
    {
        proof {
            use_type_invariant(&*self);
        }
        let k = key.to_owned();
        let v = value.to_owned();
        let found = self.find(&k);
        let ghost before = self.entries@;
        let mut entries: Vec<(String, String)> = Vec::new();
        std::mem::swap(&mut entries, &mut self.entries);
        match found {
            Some(i) => {
                entries.set(i, (k, v));
            },
            None => {
                entries.push((k, v));
            },
        }
        let ghost after = entries@;
        let ghost expected = texts_of(before).insert(key@, value@);
        assert forall|a: int, b: int| 0 <= a < b < after.len() implies after[a].0@
            != after[b].0@ by {
            match found {
                Some(i) => {
                    assert(after[i as int].0@ == before[i as int].0@);
                    if a != i && b != i {
                        assert(after[a] == before[a] && after[b] == before[b]);
                    }
                },
                None => {
                    if b == before.len() {
                        assert(!key_at(before, key@, a));
                    }
                },
            }
        }
        assert forall|q: Seq<char>|
            #![trigger texts_of(after).contains_key(q)]
            #![trigger expected.contains_key(q)]
            texts_of(after).contains_key(q) == expected.contains_key(q) && (
            texts_of(after).contains_key(q) ==> texts_of(after)[q] == expected[q]) by {
            if q == key@ {
                let n: int = match found {
                    Some(i) => i as int,
                    None => before.len() as int,
                };
                lemma_entry_text(after, n);
            } else if texts_of(before).contains_key(q) {
                let j = choose|j: int| key_at(before, q, j);
                lemma_entry_text(before, j);
                lemma_entry_text(after, j);
            } else if texts_of(after).contains_key(q) {
                let j = choose|j: int| key_at(after, q, j);
                assert(key_at(before, q, j));
            }
        }
        assert(texts_of(after) =~= expected);
        self.entries = entries;
        Ok(())
    }
}

/// A read after a successful write of `text` under `key`, on a store that
/// keeps its contents, gives back `text`, and reads of every other key give
/// what they gave before.
pub proof fn law_read_after_write<S: Storage>(
    before: S,
    after: S,
    key: Seq<char>,
    text: Seq<char>,
    other: Seq<char>,
)
    requires
        S::keeps_contents(),
        after.contents() == before.contents().insert(key, text),
    ensures
        after.contents().get(key) == Some(text),
        other != key ==> after.contents().get(other) == before.contents().get(other),
{
}

/// A failed write, on a store that keeps its contents, leaves every read as
/// it was.
pub proof fn law_failed_write_keeps_reads<S: Storage>(
    before: S,
    after: S,
    key: Seq<char>,
    text: Seq<char>,
    other: Seq<char>,
)
    requires
        S::keeps_contents(),
        crate::context::write_effect(before.contents(), after.contents(), key, text, false),
    ensures
        after.contents().get(other) == before.contents().get(other),
{
}

/// The memory store keeps its contents and never fails a write: what it
/// holds is its view.
pub proof fn law_memory_store_is_a_map(s: MemoryStore)
    ensures
        <MemoryStore as Storage>::keeps_contents(),
        <MemoryStore as Storage>::writes_succeed(),
        s.contents() == s@,
{
}

/// The memory store reads back what it was last given: after a write of
/// `text` under `key`, which always succeeds, the key reads `text` and every
/// other key reads as before.
pub proof fn law_memory_store_read_after_write(
    before: MemoryStore,
    after: MemoryStore,
    key: Seq<char>,
    text: Seq<char>,
    other: Seq<char>,
    r: Result<(), std::io::Error>,
)
    requires
        before.write_outcome(&after, key, text, r),
    ensures
        r is Ok,
        after@.get(key) == Some(text),
        other != key ==> after@.get(other) == before@.get(other),
{
}

} // verus!
