//! Content checksums: the 128-bit MD5 digest of a file's bytes, read as one
//! big-endian integer. The file is fed to the hasher block by block.
use vstd::prelude::*;

verus! {

/// An MD5 hasher, fed block by block.
#[verifier::external_body]
pub struct ContentHasher {
    inner: md5::Md5,
}

/// The bytes a hasher has absorbed so far.
pub uninterp spec fn absorbed(h: ContentHasher) -> Seq<u8>;

/// The MD5 digest of a byte sequence.
pub uninterp spec fn md5_of(data: Seq<u8>) -> Seq<u8>;

impl ContentHasher {
    /// Relies on `md5::Md5::new` (through `Digest`): a hasher that has absorbed nothing.
    #[verifier::external_body]
    pub fn new() -> (r: ContentHasher)
        ensures
            absorbed(r) == Seq::<u8>::empty(),
    {
        ContentHasher { inner: <md5::Md5 as md5::Digest>::new() }
    }

    /// Relies on `Digest::update` of `md5::Md5`: the hasher absorbs the block.
    #[verifier::external_body]
    pub fn update(&mut self, block: &[u8])
        ensures
            absorbed(*final(self)) == absorbed(*old(self)) + block@,
    {
        md5::Digest::update(&mut self.inner, block)
    }

    /// Relies on `Digest::finalize` of `md5::Md5`: the 16-byte digest of what
    /// the hasher absorbed.
    #[verifier::external_body]
    fn digest(self) -> (r: Vec<u8>)
        ensures
            r@ == md5_of(absorbed(self)),
            r@.len() == 16,
    {
        md5::Digest::finalize(self.inner).to_vec()
    }

    /// The checksum of what the hasher absorbed.
    pub fn finish(self) -> (r: u128)
        ensures
            r == content_checksum(absorbed(self)),
    {
        let d = self.digest();
        big_endian(&d)
    }
}

/// The value of at most 16 bytes read as one big-endian integer.
pub open spec fn be_value(b: Seq<u8>) -> nat
    decreases b.len(),
{
    if b.len() == 0 {
        0
    } else {
        be_value(b.drop_last()) * 256 + b.last() as nat
    }
}

/// The checksum of a file's content: its MD5 digest as a big-endian integer.
pub open spec fn content_checksum(content: Seq<u8>) -> u128 {
    be_value(md5_of(content)) as u128
}

proof fn lemma_be_value_bound(b: Seq<u8>)
    ensures
        be_value(b) < pow256(b.len()),
    decreases b.len(),
{
    if b.len() > 0 {
        lemma_be_value_bound(b.drop_last());
        let p = pow256((b.len() - 1) as nat);
        assert(be_value(b.drop_last()) * 256 + (b.last() as nat) < p * 256) by (nonlinear_arith)
            requires
                be_value(b.drop_last()) < p,
                b.last() < 256,
        ;
    }
}

pub open spec fn pow256(n: nat) -> nat
    decreases n,
{
    if n == 0 {
        1
    } else {
        pow256((n - 1) as nat) * 256
    }
}

/// Folds at most 16 bytes into one integer, the first byte most significant.
pub fn big_endian(b: &Vec<u8>) -> (r: u128)
    requires
        b@.len() <= 16,
    ensures
        r as nat == be_value(b@),
{
    let mut r: u128 = 0;
    let mut i: usize = 0;
    while i < b.len()
        invariant
            i <= b@.len(),
            b@.len() <= 16,
            r as nat == be_value(b@.subrange(0, i as int)),
        decreases b@.len() - i,
    {
        let ghost prefix = b@.subrange(0, i as int);
        proof {
            lemma_be_value_bound(prefix);
            lemma_pow256_mono(i as nat, 15);
            reveal_with_fuel(pow256, 16);
            assert(pow256(15) * 256 == 0x1_0000_0000_0000_0000_0000_0000_0000_0000);
            assert(r * 256 + 255 < 0x1_0000_0000_0000_0000_0000_0000_0000_0000) by (nonlinear_arith)
                requires
                    r < pow256(i as nat),
                    pow256(i as nat) <= pow256(15),
                    pow256(15) * 256 == 0x1_0000_0000_0000_0000_0000_0000_0000_0000,
            ;
        }
        r = r * 256 + b[i] as u128;
        i = i + 1;
        assert(b@.subrange(0, i as int).drop_last() =~= prefix);
    }
    assert(b@.subrange(0, b@.len() as int) =~= b@);
    r
}

proof fn lemma_pow256_mono(a: nat, b: nat)
    requires
        a <= b,
    ensures
        pow256(a) <= pow256(b),
    decreases b - a,
{
    if a < b {
        lemma_pow256_mono(a, (b - 1) as nat);
    }
}

} // verus!
