use vstd::prelude::*;
use sha1::Digest;

verus! {

/// Name for the SHA-1 digest (FIPS 180-4) of a byte sequence, the value that
/// `sha1::Sha1` produces for those bytes. Nothing about it is stated beyond
/// that it depends on the bytes alone.
pub uninterp spec fn sha1_digest(data: Seq<u8>) -> Seq<u8>;

/// Incremental SHA-1 state, holding a `sha1::Sha1` that is fed chunk by chunk.
/// Its contents are known only through `sha1_absorbed`.
#[verifier::external_body]
pub struct Sha1Hasher {
    inner: sha1::Sha1,
}

/// Name for the bytes a hasher has been fed since it was created, in order.
pub uninterp spec fn sha1_absorbed(h: Sha1Hasher) -> Seq<u8>;

impl Sha1Hasher {
    /// Calls `sha1::Sha1::new` (`Digest::new`); claimed: the new hasher has
    /// been fed no bytes.
    #[verifier::external_body]
    fn fresh() -> (h: Sha1Hasher)
        ensures
            sha1_absorbed(h) == Seq::<u8>::empty(),
    {
        Sha1Hasher { inner: sha1::Sha1::new() }
    }

    /// Calls `Digest::update` on the inner `sha1::Sha1`; claimed: the bytes
    /// fed so far are extended by `data`, in order.
    #[verifier::external_body]
    fn absorb(&mut self, data: &[u8])
        ensures
            sha1_absorbed(*final(self)) == sha1_absorbed(*old(self)) + data@,
    {
        self.inner.update(data)
    }

    /// Calls `Digest::finalize` on the inner `sha1::Sha1`; claimed: the
    /// result is the SHA-1 digest of all the bytes fed, 20 bytes long (the
    /// output size of `Sha1Core` is `U20`).
    #[verifier::external_body]
    fn digest(self) -> (out: Vec<u8>)
        ensures
            out@ == sha1_digest(sha1_absorbed(self)),
            out@.len() == 20,
    {
        self.inner.finalize().to_vec()
    }

    /// A hasher that has been fed nothing.
    pub fn new() -> (h: Sha1Hasher)
        ensures
            sha1_absorbed(h) == Seq::<u8>::empty(),
    {
        Self::fresh()
    }

    /// Feeds `data` after what was fed before.
    pub fn update(&mut self, data: &[u8])
        ensures
            sha1_absorbed(*final(self)) == sha1_absorbed(*old(self)) + data@,
    {
        self.absorb(data)
    }

    /// The digest of everything fed, in lower-case hexadecimal (40 digits).
    pub fn finish_hex(self) -> (r: String)
        ensures
            r@ == hex_lower(sha1_digest(sha1_absorbed(self))),
            sha1_digest(sha1_absorbed(self)).len() == 20,
            r@.len() == 40,
    {
        let d = self.digest();
        proof {
            lemma_hex_lower_len(d@);
        }
        lower_hex(d.as_slice())
    }
}

/// Lower-case hexadecimal digit for `d < 16`.
pub open spec fn hex_digit(d: nat) -> char {
    if d < 10 {
        ((d + 48) as u8) as char
    } else {
        ((d + 87) as u8) as char
    }
}

/// Two lower-case hexadecimal digits per byte, high nibble first.
pub open spec fn hex_lower(bytes: Seq<u8>) -> Seq<char>
    decreases bytes.len(),
{
    if bytes.len() == 0 {
        Seq::empty()
    } else {
        hex_lower(bytes.drop_last()).push(hex_digit((bytes.last() / 16) as nat)).push(
            hex_digit((bytes.last() % 16) as nat),
        )
    }
}

/// The digits are `0`-`9` then `a`-`f`.
pub proof fn lemma_hex_digit(d: nat)
    requires
        d < 16,
    ensures
        hex_digit(d) == "0123456789abcdef"@[d as int],
{
    reveal_strlit("0123456789abcdef");
    assert('0' as u32 == 48);
    assert('a' as u32 == 97);
    if d == 0 { assert(hex_digit(d) == '0'); }
    else if d == 1 { assert(hex_digit(d) == '1'); }
    else if d == 2 { assert(hex_digit(d) == '2'); }
    else if d == 3 { assert(hex_digit(d) == '3'); }
    else if d == 4 { assert(hex_digit(d) == '4'); }
    else if d == 5 { assert(hex_digit(d) == '5'); }
    else if d == 6 { assert(hex_digit(d) == '6'); }
    else if d == 7 { assert(hex_digit(d) == '7'); }
    else if d == 8 { assert(hex_digit(d) == '8'); }
    else if d == 9 { assert(hex_digit(d) == '9'); }
    else if d == 10 { assert(hex_digit(d) == 'a'); }
    else if d == 11 { assert(hex_digit(d) == 'b'); }
    else if d == 12 { assert(hex_digit(d) == 'c'); }
    else if d == 13 { assert(hex_digit(d) == 'd'); }
    else if d == 14 { assert(hex_digit(d) == 'e'); }
    else { assert(hex_digit(d) == 'f'); }
}

/// One byte is written as its high nibble's digit, then its low nibble's.
pub proof fn lemma_hex_byte(b: u8)
    ensures
        hex_lower(seq![b]) == seq![hex_digit((b / 16) as nat), hex_digit((b % 16) as nat)],
{
    assert(seq![b].drop_last() =~= Seq::<u8>::empty());
    assert(hex_lower(Seq::<u8>::empty()) == Seq::<char>::empty());
    assert(seq![b].last() == b);
    assert(hex_lower(seq![b]) =~= seq![hex_digit((b / 16) as nat), hex_digit((b % 16) as nat)]);
}

/// The hex text of joined bytes is the joined hex texts.
pub proof fn lemma_hex_concat(a: Seq<u8>, b: Seq<u8>)
    ensures
        hex_lower(a + b) == hex_lower(a) + hex_lower(b),
    decreases b.len(),
{
    if b.len() == 0 {
        assert(a + b =~= a);
        assert(hex_lower(b) == Seq::<char>::empty());
        assert(hex_lower(a) + hex_lower(b) =~= hex_lower(a));
    } else {
        lemma_hex_concat(a, b.drop_last());
        assert((a + b).drop_last() =~= a + b.drop_last());
        assert((a + b).last() == b.last());
        assert(hex_lower(a + b) =~= hex_lower(a) + hex_lower(b));
    }
}

/// Hex text has two digits per byte.
pub proof fn lemma_hex_lower_len(bytes: Seq<u8>)
    ensures
        hex_lower(bytes).len() == 2 * bytes.len(),
    decreases bytes.len(),
{
    if bytes.len() > 0 {
        lemma_hex_lower_len(bytes.drop_last());
    }
}

/// Calls `hex::encode`; claimed, as its documentation says: each byte in
/// order as two lower-case hexadecimal digits, high nibble first.
#[verifier::external_body]
fn lower_hex(bytes: &[u8]) -> (r: String)
    ensures
        r@ == hex_lower(bytes@),
{
    hex::encode(bytes)
}

} // verus!
