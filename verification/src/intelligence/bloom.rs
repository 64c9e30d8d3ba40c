use vstd::prelude::*;
use bloomfilter::Bloom;

verus! {

#[verifier::external_type_specification]
#[verifier::external_body]
#[verifier::reject_recursive_types(T)]
pub struct ExBloom<T: ?Sized>(Bloom<T>);

/// The texts that the filter answers yes to: those whose every hashed bit is
/// set under the filter's hash keys.
pub uninterp spec fn bloom_reported(filter: Bloom<String>) -> Set<Seq<char>>;

/// Whether the filter's bit map has as many bits as it hashes onto, none of
/// them: the state in which `Bloom::set` and `Bloom::check` do not panic.
pub uninterp spec fn bloom_consistent(filter: Bloom<String>) -> bool;

/// Creates an empty bloom filter of `bitmap_size` bytes for about
/// `items_count` items.
///
/// Calls `bloomfilter::Bloom::new`, which asserts that both sizes are
/// positive, needs the size in bits to fit a `u64` and a `usize`, and seeds
/// its hash functions from the operating system's randomness (it panics when
/// none is available, which no clause rules out); its bit map starts with
/// every bit clear, and since it hashes each text onto at least one bit, it
/// answers no to every text.
#[verifier::external_body]
fn bloom_new(bitmap_size: usize, items_count: usize) -> (filter: Bloom<String>)
    requires
        bitmap_size > 0,
        items_count > 0,
        bitmap_size * 8 <= usize::MAX,
        bitmap_size * 8 <= u64::MAX,
    ensures
        bloom_reported(filter) == Set::<Seq<char>>::empty(),
        bloom_consistent(filter),
{
    Bloom::new(bitmap_size, items_count)
}

/// Records a text in the filter.
///
/// Calls `bloomfilter::Bloom::set`, which sets the bits that the text hashes
/// onto: the bit map keeps its size, and as bits are only ever set, every
/// text answered yes before still is, and so is this one (other texts may
/// join them by chance, which is left open).
#[verifier::external_body]
fn bloom_set(filter: &mut Bloom<String>, item: &String)
    requires
        bloom_consistent(*old(filter)),
    ensures
        bloom_reported(*old(filter)).insert(item@) <= bloom_reported(*final(filter)),
        bloom_consistent(*final(filter)),
{
    filter.set(item)
}

/// Checks a text against the filter.
///
/// Calls `bloomfilter::Bloom::check`, which is true when every bit the text
/// hashes onto is set: it answers yes exactly to the texts the filter
/// reports.
#[verifier::external_body]
fn bloom_check(filter: &Bloom<String>, item: &String) -> (found: bool)
    requires
        bloom_consistent(*filter),
    ensures
        found == bloom_reported(*filter).contains(item@),
{
    filter.check(item)
}

/// A probabilistic set of known threat signatures, stored as salted hashes.
pub struct ThreatShield {
    filter: Bloom<String>,
    recorded: Ghost<Set<Seq<char>>>,
}

impl ThreatShield {
    /// The signatures recorded so far.
    pub closed spec fn rules(&self) -> Set<Seq<char>> {
        self.recorded@
    }

    /// The signatures that the shield flags as threats: every recorded one,
    /// and others by chance (false positives).
    pub closed spec fn flagged(&self) -> Set<Seq<char>> {
        bloom_reported(self.filter)
    }

    /// Whether the filter is in a state its operations accept, flagging
    /// every recorded signature.
    pub closed spec fn well_formed(&self) -> bool {
        &&& bloom_consistent(self.filter)
        &&& self.rules() <= self.flagged()
    }

    /// Creates an empty shield whose filter has `bitmap_size` bytes and is
    /// meant for about `items_capacity` signatures.
    pub fn with_bitmap_size(bitmap_size: usize, items_capacity: usize) -> (r: Self)
        requires
            bitmap_size > 0,
            items_capacity > 0,
            bitmap_size * 8 <= usize::MAX,
            bitmap_size * 8 <= u64::MAX,
        ensures
            r.rules() == Set::<Seq<char>>::empty(),
            r.flagged() == Set::<Seq<char>>::empty(),
            r.well_formed(),
    {
        let filter = bloom_new(bitmap_size, items_capacity);
        ThreatShield { filter, recorded: Ghost(Set::empty()) }
    }

    /// Ingests a salted cryptographic hash of a signature (never the raw
    /// plaintext signature).
    pub fn ingest_hashed_rule(&mut self, hashed_signature: &str)
        requires
            old(self).well_formed(),
        ensures
            final(self).rules() == old(self).rules().insert(hashed_signature@),
            old(self).flagged().insert(hashed_signature@) <= final(self).flagged(),
            final(self).well_formed(),
    {
        let item = hashed_signature.to_owned();
        bloom_set(&mut self.filter, &item);
        self.recorded = Ghost(self.recorded@.insert(hashed_signature@));
    }

    /// Whether a signature may be a known threat: always true for an ingested
    /// signature, possibly true (a false positive) for another.
    pub fn evaluate_threat(&self, signature: &str) -> (r: bool)
        requires
            self.well_formed(),
        ensures
            r == self.flagged().contains(signature@),
            self.rules().contains(signature@) ==> r,
    {
        let item = signature.to_owned();
        bloom_check(&self.filter, &item)
    }
}

/// No false negatives: every signature that a well-formed shield recorded is
/// flagged, so `evaluate_threat` answers true for it; and as ingesting only
/// adds to both sets and keeps the shield well-formed, it stays flagged
/// whatever is ingested afterwards.
pub proof fn lemma_ingested_rules_are_detected(shield: &ThreatShield, signature: Seq<char>)
    requires
        shield.well_formed(),
        shield.rules().contains(signature),
    ensures
        shield.flagged().contains(signature),
{
}

} // verus!
