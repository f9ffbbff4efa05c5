use vstd::prelude::*;
use vstd::utf8::encode_utf8;

verus! {

/// The lowercase hexadecimal rendering of the BLAKE3 digest of `input`, as
/// `blake3::hash(input).to_string()` produces it.
pub uninterp spec fn blake3_hex(input: Seq<u8>) -> Seq<char>;

/// A character of lowercase hexadecimal.
pub open spec fn is_lower_hex(c: char) -> bool {
    ('0' <= c && c <= '9') || ('a' <= c && c <= 'f')
}

/// The hash that names a piece of text in the suppression cache: the BLAKE3
/// digest of its UTF-8 bytes, in lowercase hexadecimal.
pub open spec fn spec_hash(value: Seq<char>) -> Seq<char> {
    blake3_hex(encode_utf8(value))
}

/// Calls `blake3::hash` on `input` and renders the digest with the `Display`
/// impl of `blake3::Hash`. Trusted: the result is `blake3_hex(input)`; the
/// rendering writes each of the 32 digest bytes as two characters of
/// `0123456789abcdef` (`Hash::to_hex`), so it has 64 such characters.
#[verifier::external_body]
fn blake3_hex_digest(input: &[u8]) -> (r: String)
    ensures
        r@ == blake3_hex(input@),
        r@.len() == 64,
        forall|i: int| 0 <= i < 64 ==> is_lower_hex(#[trigger] r@[i]),
{
    blake3::hash(input).to_string()
}

/// Hashes a piece of text for the suppression cache.
pub fn hash(value: &str) -> (r: String)
    ensures
        r@ == spec_hash(value@),
        r@.len() == 64,
        forall|i: int| 0 <= i < 64 ==> is_lower_hex(#[trigger] r@[i]),
{
    let bytes = value.as_bytes();
    blake3_hex_digest(bytes)
}

/// The set of hashes of text that was just written to the clipboard from a
/// remote event, so that the clipboard watcher does not send it back.
pub struct SuppresionCache {
    entries: Vec<String>,
}

impl View for SuppresionCache {
    type V = Set<Seq<char>>;

    closed spec fn view(&self) -> Set<Seq<char>> {
        Set::new(|h: Seq<char>| exists|i: int| 0 <= i < self.entries@.len() && #[trigger] self.entries@[i]@ == h)
    }
}

impl SuppresionCache {
    /// An empty cache.
    pub fn new() -> (r: Self)
        ensures
            r@ == Set::<Seq<char>>::empty(),
    {
        let r = SuppresionCache { entries: Vec::new() };
        assert(r@ =~= Set::<Seq<char>>::empty());
        r
    }

    /// Whether `hash` itself is in the cache.
    pub fn contains_hash(&self, hash: &str) -> (r: bool)
        ensures
            r == self@.contains(hash@),
    {
        let target: String = hash.to_owned();
        let mut i: usize = 0;
        while i < self.entries.len()
            invariant
                i <= self.entries@.len(),
                target@ == hash@,
                forall|j: int| 0 <= j < i ==> #[trigger] self.entries@[j]@ != hash@,
            decreases self.entries@.len() - i,
        {
            if self.entries[i] == target {
                assert(self.entries@[i as int]@ == hash@);
                return true;
            }
            i = i + 1;
        }
        false
    }

    /// Records `value` by its hash and returns the hash.
    pub fn insert(&mut self, value: String) -> (r: String)
        ensures
            r@ == spec_hash(value@),
            final(self)@ == old(self)@.insert(r@),
    {
        let h = hash(value.as_str());
        if !self.contains_hash(h.as_str()) {
            let ghost before = self.entries@;
            self.entries.push(h.clone());
            assert(self.entries@[before.len() as int]@ == h@);
            assert forall|x: Seq<char>| self@.contains(x) <==> old(self)@.insert(h@).contains(x) by {
                if x != h@ && self@.contains(x) {
                    let i = choose|i: int| 0 <= i < self.entries@.len() && #[trigger] self.entries@[i]@ == x;
                    assert(before[i]@ == x);
                }
                if old(self)@.contains(x) {
                    let i = choose|i: int| 0 <= i < before.len() && #[trigger] before[i]@ == x;
                    assert(self.entries@[i]@ == x);
                }
            }
            assert(self@ =~= old(self)@.insert(h@));
        } else {
            assert(self@ =~= old(self)@.insert(h@));
        }
        h
    }

    /// Whether the hash of `value` is in the cache.
    pub fn contains(&self, value: &str) -> (r: bool)
        ensures
            r == self@.contains(spec_hash(value@)),
    {
        let h = hash(value);
        self.contains_hash(h.as_str())
    }

    /// Forgets `hash`.
    pub fn remove(&mut self, hash: &str)
        ensures
            final(self)@ == old(self)@.remove(hash@),
    {
        let target: String = hash.to_owned();
        let mut kept: Vec<String> = Vec::new();
        let mut i: usize = 0;
        while i < self.entries.len()
            invariant
                i <= self.entries@.len(),
                target@ == hash@,
                forall|k: int| 0 <= k < kept@.len() ==> #[trigger] kept@[k]@ != hash@
                    && exists|j: int| 0 <= j < i && #[trigger] self.entries@[j]@ == kept@[k]@,
                forall|j: int| 0 <= j < i && #[trigger] self.entries@[j]@ != hash@
                    ==> exists|k: int| 0 <= k < kept@.len() && #[trigger] kept@[k]@ == self.entries@[j]@,
            decreases self.entries@.len() - i,
        {
            if self.entries[i] != target {
                let ghost before = kept@;
                kept.push(self.entries[i].clone());
                assert(kept@[before.len() as int]@ == self.entries@[i as int]@);
                assert forall|k: int| 0 <= k < kept@.len() implies #[trigger] kept@[k]@ != hash@
                    && exists|j: int| 0 <= j < i + 1 && #[trigger] self.entries@[j]@ == kept@[k]@ by {
                    if k < before.len() {
                        assert(kept@[k] == before[k]);
                    }
                }
                assert forall|j: int| 0 <= j < i + 1 && #[trigger] self.entries@[j]@ != hash@
                    implies exists|k: int| 0 <= k < kept@.len() && #[trigger] kept@[k]@ == self.entries@[j]@ by {
                    if j < i {
                        let k = choose|k: int| 0 <= k < before.len() && #[trigger] before[k]@ == self.entries@[j]@;
                        assert(kept@[k] == before[k]);
                    } else {
                        assert(kept@[before.len() as int]@ == self.entries@[j]@);
                    }
                }
            }
            i = i + 1;
        }
        let ghost old_entries = self.entries@;
        let ghost new_self = SuppresionCache { entries: kept };
        assert forall|x: Seq<char>| new_self@.contains(x) <==> old(self)@.remove(hash@).contains(x) by {
            if new_self@.contains(x) {
                let k = choose|k: int| 0 <= k < kept@.len() && #[trigger] kept@[k]@ == x;
                assert(kept@[k]@ != hash@);
                let j = choose|j: int| 0 <= j < old_entries.len() && #[trigger] old_entries[j]@ == kept@[k]@;
                assert(old(self)@.contains(x));
            }
            if old(self)@.remove(hash@).contains(x) {
                let j = choose|j: int| 0 <= j < old_entries.len() && #[trigger] old_entries[j]@ == x;
                let k = choose|k: int| 0 <= k < kept@.len() && #[trigger] kept@[k]@ == old_entries[j]@;
                assert(new_self@.contains(x));
            }
        }
        self.entries = kept;
        assert(self@ =~= old(self)@.remove(hash@));
    }
}

impl Default for SuppresionCache {
    fn default() -> (r: Self)
        ensures
            r@ == Set::<Seq<char>>::empty(),
    {
        Self::new()
    }
}

/// After `insert(text)` the cache contains `text`.
pub proof fn law_insert_then_contains(cache: Set<Seq<char>>, text: Seq<char>)
    ensures
        cache.insert(spec_hash(text)).contains(spec_hash(text)),
{
}

/// Removing the hash that `insert(text)` returned forgets `text` again.
pub proof fn law_remove_forgets(cache: Set<Seq<char>>, text: Seq<char>)
    ensures
        !cache.insert(spec_hash(text)).remove(spec_hash(text)).contains(spec_hash(text)),
{
}

/// Removing some other hash does not change whether `text` is contained.
pub proof fn law_remove_keeps_others(cache: Set<Seq<char>>, h: Seq<char>, text: Seq<char>)
    requires
        h != spec_hash(text),
    ensures
        cache.remove(h).contains(spec_hash(text)) == cache.contains(spec_hash(text)),
{
}

/// Inserting the same text twice leaves the cache as inserting it once.
pub proof fn law_insert_idempotent(cache: Set<Seq<char>>, text: Seq<char>)
    ensures
        cache.insert(spec_hash(text)).insert(spec_hash(text)) == cache.insert(spec_hash(text)),
{
    assert(cache.insert(spec_hash(text)).insert(spec_hash(text)) =~= cache.insert(spec_hash(text)));
}

} // verus!
