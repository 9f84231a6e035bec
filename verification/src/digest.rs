//! Content identifiers.
//!
//! A digest is an algorithm-tagged content hash written `<algorithm>:<hex>`,
//! for example `sha256:e3b0c442...`.  It identifies an immutable blob.

use vstd::prelude::*;
use vstd::string::*;

verus! {

/// The mathematical value of a [`Digest`]: the character sequences of its
/// two text fields.
pub ghost struct DigestView {
    pub algorithm: Seq<char>,
    pub hash: Seq<char>,
}

/// Content identifier: an algorithm name paired with the hash it produced,
/// both kept exactly as written in the text form `<algorithm>:<hash>`.
#[derive(Debug)]
pub struct Digest {
    pub algorithm: String,
    pub hash: String,
}

impl View for Digest {
    type V = DigestView;

    open spec fn view(&self) -> DigestView {
        DigestView { algorithm: self.algorithm@, hash: self.hash@ }
    }
}

/// Error returned when a string is no digest: it holds no `:` separator,
/// or the field on either side of its first `:` is empty.
#[derive(Debug, PartialEq, Eq, Structural)]
pub struct ParseDigestError;

impl ParseDigestError {
    /// Renders the error for display.
    pub fn message(&self) -> (r: String)
        ensures
            r@ == "invalid digest format"@,
    {
        String::from_str("invalid digest format")
    }
}

/// Whether the character sequence holds a `:` anywhere.
pub open spec fn has_colon(s: Seq<char>) -> bool {
    exists|i: int| 0 <= i < s.len() && s[i] == ':'
}

/// The canonical text form of a digest: `<algorithm>:<hash>`.
pub open spec fn render(dv: DigestView) -> Seq<char> {
    dv.algorithm + seq![':'] + dv.hash
}

/// Whether `dv` is the split of `s` at its first `:` into a digest with
/// both fields non-empty: a parsed digest's invariant.
pub open spec fn valid_split(s: Seq<char>, dv: DigestView) -> bool {
    &&& dv.algorithm.len() > 0
    &&& dv.hash.len() > 0
    &&& !has_colon(dv.algorithm)
    &&& s == render(dv)
}

/// Whether the string is a digest string: it splits into a non-empty
/// algorithm, `:`, and a non-empty hash.
pub open spec fn parseable(s: Seq<char>) -> bool {
    exists|dv: DigestView| valid_split(s, dv)
}

/// The hexadecimal digit character for a value below sixteen.
pub open spec fn hex_digit(n: int) -> char {
    "0123456789abcdef"@[n]
}

/// Lowercase hexadecimal rendering of a byte sequence, two digits per byte.
pub open spec fn hex_of(bytes: Seq<u8>) -> Seq<char>
    decreases bytes.len(),
{
    if bytes.len() == 0 {
        Seq::empty()
    } else {
        hex_of(bytes.drop_last())
            + seq![hex_digit(bytes.last() as int / 16), hex_digit(bytes.last() as int % 16)]
    }
}

impl Digest {
    /// Splits a digest string on its first `:` into algorithm and hash,
    /// both of which must be non-empty once parsed.
    ///
    /// Fails exactly when no such split exists: for every string without a
    /// `:`, and for one whose first `:` stands at either end.  On success
    /// the returned algorithm holds no `:` (the split is at the first one),
    /// both fields are non-empty, and re-joining algorithm, `:` and hash
    /// gives the input back.
    pub fn parse(s: &str) -> (r: Result<Digest, ParseDigestError>)
        ensures
            r is Ok <==> parseable(s@),
            (r matches Ok(d) ==> valid_split(s@, d@)),
            !has_colon(s@) ==> r is Err,
    {
        let n = s.unicode_len();
        let mut i: usize = 0;
        while i < n
            invariant
                n == s@.len(),
                i <= n,
                forall|j: int| 0 <= j < i ==> s@[j] != ':',
            decreases n - i,
        {
            if s.get_char(i) == ':' {
                if i == 0 {
                    proof {
                        if parseable(s@) {
                            let dv = choose|dv: DigestView| valid_split(s@, dv);
                            assert(s@ == (dv.algorithm + seq![':']) + dv.hash);
                            assert(s@[0] == (dv.algorithm + seq![':'])[0]);
                            assert(s@[0] == dv.algorithm[0]);
                            assert(has_colon(dv.algorithm));
                            assert(false);
                        }
                    }
                    return Err(ParseDigestError);
                }
                if i + 1 == n {
                    proof {
                        if parseable(s@) {
                            let dv = choose|dv: DigestView| valid_split(s@, dv);
                            let a = dv.algorithm;
                            assert(s@ == (a + seq![':']) + dv.hash);
                            assert(s@.len() == a.len() + 1 + dv.hash.len());
                            assert(s@[a.len() as int] == (a + seq![':'])[a.len() as int]);
                            assert(s@[a.len() as int] == ':');
                            assert(a.len() >= i);
                            assert(dv.hash.len() == 0);
                            assert(false);
                        }
                    }
                    return Err(ParseDigestError);
                }
                let algorithm = s.substring_char(0, i).to_owned();
                let hash = s.substring_char(i + 1, n).to_owned();
                let d = Digest { algorithm, hash };
                proof {
                    assert(s@ =~= render(d@));
                    assert(valid_split(s@, d@));
                    assert(s@[i as int] == ':');
                }
                return Ok(d);
            }
            i = i + 1;
        }
        proof {
            if parseable(s@) {
                let dv = choose|dv: DigestView| valid_split(s@, dv);
                let a = dv.algorithm;
                assert(s@ == (a + seq![':']) + dv.hash);
                assert(s@.len() == a.len() + 1 + dv.hash.len());
                assert(s@[a.len() as int] == (a + seq![':'])[a.len() as int]);
                assert(s@[a.len() as int] == ':');
                assert(false);
            }
        }
        Err(ParseDigestError)
    }

    /// Renders the digest in its canonical text form `<algorithm>:<hash>`.
    pub fn to_string(&self) -> (r: String)
        ensures
            r@ == render(self@),
    {
        proof {
            reveal_strlit(":");
        }
        let mut r = self.algorithm.clone();
        r.append(":");
        r.append(self.hash.as_str());
        proof {
            assert(r@ =~= render(self@));
        }
        r
    }

    /// Pairs the algorithm name `sha256` with the lowercase hexadecimal
    /// rendering of a finished hash.
    pub fn from_sha256(bytes: &Vec<u8>) -> (r: Digest)
        ensures
            r@.algorithm == "sha256"@,
            r@.hash == hex_of(bytes@),
    {
        let table = "0123456789abcdef";
        proof {
            reveal_strlit("0123456789abcdef");
        }
        let mut hash = String::new();
        let mut k: usize = 0;
        while k < bytes.len()
            invariant
                k <= bytes.len(),
                table@ == "0123456789abcdef"@,
                table@.len() == 16,
                hash@ == hex_of(bytes@.take(k as int)),
            decreases bytes.len() - k,
        {
            let b = bytes[k];
            let hi = (b / 16) as usize;
            let lo = (b % 16) as usize;
            hash.append(table.substring_char(hi, hi + 1));
            hash.append(table.substring_char(lo, lo + 1));
            proof {
                assert(table@.subrange(hi as int, hi as int + 1) =~= seq![hex_digit(hi as int)]);
                assert(table@.subrange(lo as int, lo as int + 1) =~= seq![hex_digit(lo as int)]);
                assert(bytes@.take(k as int + 1).drop_last() =~= bytes@.take(k as int));
                assert(bytes@.take(k as int + 1).last() == bytes@[k as int]);
            }
            k = k + 1;
        }
        proof {
            assert(bytes@.take(bytes@.len() as int) =~= bytes@);
        }
        Digest { algorithm: String::from_str("sha256"), hash }
    }
}

impl PartialEq for Digest {
    /// Structural equality: algorithm and hash both match, case-sensitively.
    fn eq(&self, other: &Digest) -> bool {
        self.algorithm == other.algorithm && self.hash == other.hash
    }
}

impl vstd::std_specs::cmp::PartialEqSpecImpl for Digest {
    open spec fn obeys_eq_spec() -> bool {
        true
    }

    open spec fn eq_spec(&self, other: &Digest) -> bool {
        self@ == other@
    }
}

impl Clone for Digest {
    /// A clone carries the same algorithm and hash.
    fn clone(&self) -> (r: Digest)
        ensures
            r@ == self@,
    {
        Digest { algorithm: self.algorithm.clone(), hash: self.hash.clone() }
    }
}

/// Law: for every valid digest string `s`, rendering what was parsed gives
/// the string back — `to_string(parse(s)) == s` — and the parse is
/// deterministic: any two digests that `parse`'s contract admits for the
/// same string are the same digest.
pub proof fn lemma_parse_then_render(s: Seq<char>, d1: DigestView, d2: DigestView)
    requires
        valid_split(s, d1),
        valid_split(s, d2),
    ensures
        render(d1) == s,
        d1 == d2,
{
    lemma_split_unique(d1.algorithm, d1.hash, d2.algorithm, d2.hash);
}

/// Law: the decomposition of a string into a colon-free algorithm, `:`, and
/// a hash is unique, so two digests with colon-free algorithms and the same
/// text form are the same digest.
pub proof fn lemma_split_unique(a1: Seq<char>, h1: Seq<char>, a2: Seq<char>, h2: Seq<char>)
    requires
        !has_colon(a1),
        !has_colon(a2),
        a1 + seq![':'] + h1 == a2 + seq![':'] + h2,
    ensures
        a1 == a2,
        h1 == h2,
{
    let s = a1 + seq![':'] + h1;
    assert(s[a1.len() as int] == ':');
    assert(s[a2.len() as int] == ':');
    if a1.len() < a2.len() {
        assert(a2[a1.len() as int] == ':');
        assert(false);
    }
    if a2.len() < a1.len() {
        assert(a1[a2.len() as int] == ':');
        assert(false);
    }
    assert(a1.len() == a2.len());
    assert forall|i: int| 0 <= i < a1.len() implies a1[i] == a2[i] by {
        assert(s[i] == a1[i]);
        assert((a2 + seq![':'] + h2)[i] == a2[i]);
    }
    assert(a1 =~= a2);
    assert(s.len() == a1.len() + 1 + h1.len());
    assert((a2 + seq![':'] + h2).len() == a2.len() + 1 + h2.len());
    assert(h1.len() == h2.len());
    assert forall|i: int| 0 <= i < h1.len() implies h1[i] == h2[i] by {
        assert(s[a1.len() + 1 + i] == h1[i]);
        assert((a2 + seq![':'] + h2)[a2.len() + 1 + i] == h2[i]);
    }
    assert(h1 =~= h2);
}

/// Law: parsing the rendered text of a valid digest — both fields
/// non-empty, algorithm without `:` — recovers that digest:
/// `parse(to_string(d)) == d`.  `p` is what `parse`'s contract admits for
/// the rendered text of `d`; the rendered text of a valid digest is
/// parseable, so `parse` does return such a `p`.
pub proof fn lemma_render_then_parse(d: DigestView, p: DigestView)
    requires
        d.algorithm.len() > 0,
        d.hash.len() > 0,
        !has_colon(d.algorithm),
        valid_split(render(d), p),
    ensures
        parseable(render(d)),
        p == d,
{
    assert(valid_split(render(d), d));
    lemma_split_unique(d.algorithm, d.hash, p.algorithm, p.hash);
}

} // verus!
