use vstd::prelude::*;

use crate::text::push_char;
use sha2::Digest;

verus! {

/// Thirty-two zero bytes: the identity element of the combine operation.
pub open spec fn zero_digest() -> Seq<u8> {
    Seq::new(32, |i: int| 0u8)
}

/// Pointwise exclusive-or of two byte sequences; the result has the length of
/// the first.
pub open spec fn xor_bytes(a: Seq<u8>, b: Seq<u8>) -> Seq<u8> {
    Seq::new(a.len(), |i: int| a[i] ^ b[i])
}

/// What SHA-256 returns for a given character sequence; the digest depends on
/// the characters alone.
pub uninterp spec fn sha256_of(s: Seq<char>) -> Seq<u8>;

/// Folding a sequence of digests into an accumulator, one combine at a time.
pub open spec fn fold_digests(acc: Seq<u8>, ds: Seq<Seq<u8>>) -> Seq<u8>
    decreases ds.len(),
{
    if ds.len() == 0 {
        acc
    } else {
        xor_bytes(fold_digests(acc, ds.drop_last()), ds.last())
    }
}

/// The hexadecimal digit character for a value below sixteen.
pub open spec fn hex_char_of(n: int) -> char {
    if n < 10 {
        crate::text::dec_char_of(n)
    } else if n == 10 {
        'a'
    } else if n == 11 {
        'b'
    } else if n == 12 {
        'c'
    } else if n == 13 {
        'd'
    } else if n == 14 {
        'e'
    } else {
        'f'
    }
}

/// The lower-case hexadecimal rendering of a byte sequence, two characters per
/// byte.
pub open spec fn hex_of(bytes: Seq<u8>) -> Seq<char>
    decreases bytes.len(),
{
    if bytes.len() == 0 {
        Seq::empty()
    } else {
        hex_of(bytes.drop_last()) + seq![
            hex_char_of(bytes.last() as int / 16),
            hex_char_of(bytes.last() as int % 16),
        ]
    }
}

/// An order-independent combinable digest accumulator.  Each update folds a
/// SHA-256 digest into the accumulator with a pointwise exclusive-or, so the
/// final value does not depend on the order of updates or merges.
pub struct Checksum {
    digest: Vec<u8>,
}

impl View for Checksum {
    type V = Seq<u8>;

    closed spec fn view(&self) -> Seq<u8> {
        self.digest@
    }
}

impl Checksum {
    /// A checksum always holds a digest of exactly thirty-two bytes.
    pub open spec fn wf(&self) -> bool {
        self@.len() == 32
    }

    /// Relies on the sha2 crate's SHA-256 implementation: the digest is
    /// thirty-two bytes and is a function of the hashed characters alone.
    #[verifier::external_body]
    pub fn with_sha256(name: &str) -> (r: Checksum)
        ensures
            r@ == sha256_of(name@),
            r.wf(),
    {
        Checksum { digest: sha2::Sha256::digest(name.as_bytes()).to_vec() }
    }

    /// Merges another accumulator into a fresh one, pointwise.
    pub fn combine(&self, other: &Checksum) -> (r: Checksum)
        requires
            self.wf(),
            other.wf(),
        ensures
            r.wf(),
            r@ == xor_bytes(self@, other@),
    {
        let mut digest: Vec<u8> = Vec::new();
        let mut i: usize = 0;
        while i < 32
            invariant
                i <= 32,
                self.wf(),
                other.wf(),
                digest@.len() == i,
                forall|j: int| 0 <= j < i ==> digest@[j] == (self.digest@[j] ^ other.digest@[j]),
            decreases 32 - i,
        {
            let b = self.digest[i] ^ other.digest[i];
            digest.push(b);
            i += 1;
        }
        let r = Checksum { digest };
        proof {
            assert(r@ =~= xor_bytes(self@, other@));
        }
        r
    }

    /// Folds another accumulator into this one, in place.
    pub fn update(&mut self, other: Checksum)
        requires
            old(self).wf(),
            other.wf(),
        ensures
            final(self).wf(),
            final(self)@ == xor_bytes(old(self)@, other@),
    {
        let merged = self.combine(&other);
        self.digest = merged.digest;
    }

    /// Renders the accumulator as lower-case hexadecimal text.
    pub fn to_hex(&self) -> (r: String)
        requires
            self.wf(),
        ensures
            r@ == hex_of(self@),
    {
        let mut r = String::new();
        let mut i: usize = 0;
        while i < self.digest.len()
            invariant
                self.wf(),
                i <= 32,
                r@ == hex_of(self.digest@.take(i as int)),
            decreases 32 - i,
        {
            let b = self.digest[i];
            let hi = hex_char(b / 16);
            let lo = hex_char(b % 16);
            push_char(&mut r, hi);
            push_char(&mut r, lo);
            proof {
                let t = self.digest@.take(i as int + 1);
                assert(t.drop_last() =~= self.digest@.take(i as int));
                assert(r@ =~= hex_of(t));
            }
            i += 1;
        }
        proof {
            assert(self.digest@.take(32) =~= self.digest@);
        }
        r
    }
}

impl Default for Checksum {
    /// The identity accumulator: thirty-two zero bytes.
    fn default() -> (r: Checksum)
        ensures
            r.wf(),
            r@ == zero_digest(),
    {
        let mut digest: Vec<u8> = Vec::new();
        let mut i: usize = 0;
        while i < 32
            invariant
                i <= 32,
                digest@.len() == i,
                forall|j: int| 0 <= j < i ==> digest@[j] == 0u8,
            decreases 32 - i,
        {
            digest.push(0u8);
            i += 1;
        }
        let r = Checksum { digest };
        proof {
            assert(r@ =~= zero_digest());
        }
        r
    }
}

impl Clone for Checksum {
    /// A clone holds the same digest bytes.
    fn clone(&self) -> (r: Checksum)
        ensures
            r@ == self@,
    {
        let mut digest: Vec<u8> = Vec::new();
        let mut i: usize = 0;
        while i < self.digest.len()
            invariant
                i <= self.digest@.len(),
                digest@.len() == i,
                forall|j: int| 0 <= j < i ==> digest@[j] == self.digest@[j],
            decreases self.digest@.len() - i,
        {
            let b = self.digest[i];
            digest.push(b);
            i += 1;
        }
        let r = Checksum { digest };
        proof {
            assert(r@ =~= self@);
        }
        r
    }
}

impl PartialEq for Checksum {
    /// Value equality: the digests hold the same bytes.
    fn eq(&self, other: &Checksum) -> (r: bool) {
        if self.digest.len() != other.digest.len() {
            proof {
                assert(self.digest@.len() != other.digest@.len());
            }
            return false;
        }
        let mut i: usize = 0;
        while i < self.digest.len()
            invariant
                self.digest@.len() == other.digest@.len(),
                i <= self.digest@.len(),
                forall|j: int| 0 <= j < i ==> self.digest@[j] == other.digest@[j],
            decreases self.digest@.len() - i,
        {
            if self.digest[i] != other.digest[i] {
                proof {
                    assert(self.digest@[i as int] != other.digest@[i as int]);
                }
                return false;
            }
            i += 1;
        }
        proof {
            assert(self.digest@ =~= other.digest@);
        }
        true
    }
}

impl vstd::std_specs::cmp::PartialEqSpecImpl for Checksum {
    open spec fn obeys_eq_spec() -> bool {
        true
    }

    open spec fn eq_spec(&self, other: &Checksum) -> bool {
        self@ == other@
    }
}

fn hex_char(n: u8) -> (c: char)
    requires
        n < 16,
    ensures
        c == hex_char_of(n as int),
{
    if n == 0 {
        '0'
    } else if n == 1 {
        '1'
    } else if n == 2 {
        '2'
    } else if n == 3 {
        '3'
    } else if n == 4 {
        '4'
    } else if n == 5 {
        '5'
    } else if n == 6 {
        '6'
    } else if n == 7 {
        '7'
    } else if n == 8 {
        '8'
    } else if n == 9 {
        '9'
    } else if n == 10 {
        'a'
    } else if n == 11 {
        'b'
    } else if n == 12 {
        'c'
    } else if n == 13 {
        'd'
    } else if n == 14 {
        'e'
    } else {
        'f'
    }
}

/// Combining two accumulators of equal width gives the same value either way
/// round.
pub proof fn lemma_combine_commutative(a: Seq<u8>, b: Seq<u8>)
    requires
        a.len() == b.len(),
    ensures
        xor_bytes(a, b) == xor_bytes(b, a),
{
    assert forall|k: int| 0 <= k < a.len() implies xor_bytes(a, b)[k] == xor_bytes(b, a)[k] by {
        let x = a[k];
        let y = b[k];
        assert(x ^ y == y ^ x) by (bit_vector);
    };
    assert(xor_bytes(a, b) =~= xor_bytes(b, a));
}

/// Combining is associative.
pub proof fn lemma_combine_associative(a: Seq<u8>, b: Seq<u8>, c: Seq<u8>)
    requires
        a.len() == b.len(),
        b.len() == c.len(),
    ensures
        xor_bytes(xor_bytes(a, b), c) == xor_bytes(a, xor_bytes(b, c)),
{
    assert forall|k: int| 0 <= k < a.len() implies xor_bytes(xor_bytes(a, b), c)[k] == xor_bytes(
        a,
        xor_bytes(b, c),
    )[k] by {
        let x = a[k];
        let y = b[k];
        let z = c[k];
        assert((x ^ y) ^ z == x ^ (y ^ z)) by (bit_vector);
    };
    assert(xor_bytes(xor_bytes(a, b), c) =~= xor_bytes(a, xor_bytes(b, c)));
}

/// The default accumulator is the identity of the combine operation.
pub proof fn lemma_combine_identity(a: Seq<u8>)
    requires
        a.len() == 32,
    ensures
        xor_bytes(zero_digest(), a) == a,
        xor_bytes(a, zero_digest()) == a,
{
    assert forall|k: int| 0 <= k < 32 implies xor_bytes(zero_digest(), a)[k] == a[k] by {
        let x = a[k];
        assert(0u8 ^ x == x) by (bit_vector);
    };
    assert forall|k: int| 0 <= k < 32 implies xor_bytes(a, zero_digest())[k] == a[k] by {
        let x = a[k];
        assert(x ^ 0u8 == x) by (bit_vector);
    };
    assert(xor_bytes(zero_digest(), a) =~= a);
    assert(xor_bytes(a, zero_digest()) =~= a);
}

/// A fold never changes the accumulator's width.
pub proof fn lemma_fold_digests_len(acc: Seq<u8>, ds: Seq<Seq<u8>>)
    ensures
        fold_digests(acc, ds).len() == acc.len(),
    decreases ds.len(),
{
    if ds.len() > 0 {
        lemma_fold_digests_len(acc, ds.drop_last());
    }
}

/// Associativity where only the two outer operands need equal width.
proof fn lemma_xor_assoc_any(a: Seq<u8>, b: Seq<u8>, c: Seq<u8>)
    requires
        a.len() == b.len(),
    ensures
        xor_bytes(a, xor_bytes(b, c)) == xor_bytes(xor_bytes(a, b), c),
{
    assert forall|k: int| 0 <= k < a.len() implies xor_bytes(a, xor_bytes(b, c))[k] == xor_bytes(
        xor_bytes(a, b),
        c,
    )[k] by {
        let x = a[k];
        let y = b[k];
        let z = c[k];
        assert(x ^ (y ^ z) == (x ^ y) ^ z) by (bit_vector);
    };
    assert(xor_bytes(a, xor_bytes(b, c)) =~= xor_bytes(xor_bytes(a, b), c));
}

/// Folding one batch and then another is folding their concatenation.
pub proof fn lemma_fold_digests_concat(acc: Seq<u8>, ds1: Seq<Seq<u8>>, ds2: Seq<Seq<u8>>)
    ensures
        fold_digests(acc, ds1 + ds2) == fold_digests(fold_digests(acc, ds1), ds2),
    decreases ds2.len(),
{
    if ds2.len() == 0 {
        assert(ds1 + ds2 =~= ds1);
    } else {
        lemma_fold_digests_concat(acc, ds1, ds2.drop_last());
        assert((ds1 + ds2).drop_last() =~= ds1 + ds2.drop_last());
    }
}

/// Local accumulation then a single merge equals one global fold: combining
/// the folds of two batches of digests gives the fold of both batches
/// together, so per-thread checksums merged at join time equal the checksum a
/// single thread would have produced.
pub proof fn lemma_combine_of_folds(ds1: Seq<Seq<u8>>, ds2: Seq<Seq<u8>>)
    ensures
        xor_bytes(fold_digests(zero_digest(), ds1), fold_digests(zero_digest(), ds2))
            == fold_digests(zero_digest(), ds1 + ds2),
    decreases ds2.len(),
{
    let f1 = fold_digests(zero_digest(), ds1);
    lemma_fold_digests_len(zero_digest(), ds1);
    if ds2.len() == 0 {
        lemma_combine_identity(f1);
        assert(ds1 + ds2 =~= ds1);
    } else {
        lemma_combine_of_folds(ds1, ds2.drop_last());
        let f2 = fold_digests(zero_digest(), ds2.drop_last());
        lemma_fold_digests_len(zero_digest(), ds2.drop_last());
        lemma_xor_assoc_any(f1, f2, ds2.last());
        lemma_fold_digests_concat(zero_digest(), ds1, ds2);
        assert((ds1 + ds2).drop_last() =~= ds1 + ds2.drop_last());
        lemma_fold_digests_concat(zero_digest(), ds1, ds2.drop_last());
    }
}

/// The pipeline's correctness oracle.  Split the emitted digests across two
/// producer threads and the consumed digests across two consumer threads, in
/// any order: whenever every emitted digest is consumed exactly once (the two
/// batches hold the same multiset), the merge of the consumer accumulators
/// equals the merge of the producer accumulators.
pub proof fn lemma_checksum_convergence(
    produced1: Seq<Seq<u8>>,
    produced2: Seq<Seq<u8>>,
    consumed1: Seq<Seq<u8>>,
    consumed2: Seq<Seq<u8>>,
)
    requires
        (produced1 + produced2).to_multiset() == (consumed1 + consumed2).to_multiset(),
    ensures
        xor_bytes(
            fold_digests(zero_digest(), consumed1),
            fold_digests(zero_digest(), consumed2),
        ) == xor_bytes(
            fold_digests(zero_digest(), produced1),
            fold_digests(zero_digest(), produced2),
        ),
{
    lemma_combine_of_folds(produced1, produced2);
    lemma_combine_of_folds(consumed1, consumed2);
    lemma_fold_digests_permutation(
        zero_digest(),
        produced1 + produced2,
        consumed1 + consumed2,
    );
}

/// Folding two digests in either order gives the same accumulator.
proof fn lemma_xor_exchange(f: Seq<u8>, x: Seq<u8>, y: Seq<u8>)
    ensures
        xor_bytes(xor_bytes(f, x), y) == xor_bytes(xor_bytes(f, y), x),
{
    assert forall|k: int| 0 <= k < f.len() implies xor_bytes(xor_bytes(f, x), y)[k] == xor_bytes(
        xor_bytes(f, y),
        x,
    )[k] by {
        let a = f[k];
        let b = x[k];
        let c = y[k];
        assert((a ^ b) ^ c == (a ^ c) ^ b) by (bit_vector);
    };
    assert(xor_bytes(xor_bytes(f, x), y) =~= xor_bytes(xor_bytes(f, y), x));
}

/// Removing one digest from the fold and combining it afterwards changes
/// nothing.
proof fn lemma_fold_digests_remove(acc: Seq<u8>, ds: Seq<Seq<u8>>, i: int)
    requires
        0 <= i < ds.len(),
    ensures
        fold_digests(acc, ds) == xor_bytes(fold_digests(acc, ds.remove(i)), ds[i]),
    decreases ds.len(),
{
    if i == ds.len() - 1 {
        assert(ds.remove(i) =~= ds.drop_last());
    } else {
        lemma_fold_digests_remove(acc, ds.drop_last(), i);
        assert(ds.remove(i).drop_last() =~= ds.drop_last().remove(i));
        assert(ds.remove(i).last() == ds.last());
        lemma_xor_exchange(fold_digests(acc, ds.drop_last().remove(i)), ds[i], ds.last());
    }
}

/// Folding the same multiset of digests, in any order, gives the same
/// accumulator: a permutation of the update calls does not change the result.
pub proof fn lemma_fold_digests_permutation(acc: Seq<u8>, ds1: Seq<Seq<u8>>, ds2: Seq<Seq<u8>>)
    requires
        ds1.to_multiset() == ds2.to_multiset(),
    ensures
        fold_digests(acc, ds1) == fold_digests(acc, ds2),
    decreases ds1.len(),
{
    broadcast use vstd::seq_lib::group_to_multiset_ensures;

    if ds1.len() == 0 {
        assert(ds2.to_multiset().len() == ds2.len());
        assert(ds2.len() == 0);
    } else {
        let x = ds1.last();
        assert(ds1[ds1.len() - 1] == x);
        assert(ds1.contains(x));
        assert(ds1.to_multiset().count(x) > 0);
        assert(ds2.to_multiset().count(x) > 0);
        assert(ds2.contains(x));
        let j = choose|j: int| 0 <= j < ds2.len() && ds2[j] == x;
        lemma_fold_digests_remove(acc, ds1, ds1.len() - 1);
        lemma_fold_digests_remove(acc, ds2, j);
        assert(ds1.remove(ds1.len() - 1) =~= ds1.drop_last());
        assert(ds1.drop_last().to_multiset() == ds1.to_multiset().remove(x));
        assert(ds2.remove(j).to_multiset() == ds2.to_multiset().remove(x));
        lemma_fold_digests_permutation(acc, ds1.drop_last(), ds2.remove(j));
    }
}

} // verus!
