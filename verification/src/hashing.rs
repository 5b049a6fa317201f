//! SHA-256 digests and their lowercase hex rendering.
//!
//! The digest itself comes from the `sha2` crate; everything built on top of
//! it (hex encoding, digest strings) is verified here.

use vstd::prelude::*;

verus! {

/// What SHA-256 returns for a given byte sequence. The algorithm is pure:
/// the same bytes always give the same digest, on every machine.
pub uninterp spec fn sha256_of(data: Seq<u8>) -> Seq<u8>;

/// Relies on sha2's `Sha256::digest`: the digest is a function of the input
/// bytes alone, and is always 32 bytes long.
#[verifier::external_body]
pub(crate) fn sha256(data: &[u8]) -> (r: Vec<u8>)
    ensures
        r@ == sha256_of(data@),
        r@.len() == 32,
{
    <sha2::Sha256 as sha2::Digest>::digest(data).to_vec()
}

/// The lowercase hex digit for a nibble.
pub open spec fn spec_hex_digit(n: u8) -> char {
    if n == 0 {
        '0'
    } else if n == 1 {
        '1'
    } else if n == 2 {
        '2'
    } else if n == 3 {
        '3'
    } else if n == 4 {
        '4'
    } else if n == 5 {
        '5'
    } else if n == 6 {
        '6'
    } else if n == 7 {
        '7'
    } else if n == 8 {
        '8'
    } else if n == 9 {
        '9'
    } else if n == 10 {
        'a'
    } else if n == 11 {
        'b'
    } else if n == 12 {
        'c'
    } else if n == 13 {
        'd'
    } else if n == 14 {
        'e'
    } else {
        'f'
    }
}

/// Lowercase hex rendering of a byte sequence: two digits per byte,
/// high nibble first.
pub open spec fn spec_hex(data: Seq<u8>) -> Seq<char>
    decreases data.len(),
{
    if data.len() == 0 {
        Seq::empty()
    } else {
        seq![spec_hex_digit(data.first() / 16), spec_hex_digit(data.first() % 16)]
            + spec_hex(data.drop_first())
    }
}

proof fn lemma_spec_hex_snoc(s: Seq<u8>, b: u8)
    ensures
        spec_hex(s.push(b)) == spec_hex(s) + seq![spec_hex_digit(b / 16), spec_hex_digit(b % 16)],
    decreases s.len(),
{
    if s.len() == 0 {
        assert(s.push(b) =~= seq![b]);
        assert(seq![b].first() == b);
        assert(seq![b].drop_first() =~= Seq::<u8>::empty());
        assert(spec_hex(Seq::<u8>::empty()) =~= Seq::<char>::empty());
        assert(spec_hex(s.push(b)) =~= spec_hex(s) + seq![
            spec_hex_digit(b / 16),
            spec_hex_digit(b % 16),
        ]);
    } else {
        assert(s.push(b).drop_first() =~= s.drop_first().push(b));
        lemma_spec_hex_snoc(s.drop_first(), b);
        assert(spec_hex(s.push(b)) =~= spec_hex(s) + seq![
            spec_hex_digit(b / 16),
            spec_hex_digit(b % 16),
        ]);
    }
}

fn hex_digit_str(n: u8) -> (r: &'static str)
    requires
        n < 16,
    ensures
        r@ =~= seq![spec_hex_digit(n)],
{
    if n == 0 {
        proof {
            reveal_strlit("0");
        }
        "0"
    } else if n == 1 {
        proof {
            reveal_strlit("1");
        }
        "1"
    } else if n == 2 {
        proof {
            reveal_strlit("2");
        }
        "2"
    } else if n == 3 {
        proof {
            reveal_strlit("3");
        }
        "3"
    } else if n == 4 {
        proof {
            reveal_strlit("4");
        }
        "4"
    } else if n == 5 {
        proof {
            reveal_strlit("5");
        }
        "5"
    } else if n == 6 {
        proof {
            reveal_strlit("6");
        }
        "6"
    } else if n == 7 {
        proof {
            reveal_strlit("7");
        }
        "7"
    } else if n == 8 {
        proof {
            reveal_strlit("8");
        }
        "8"
    } else if n == 9 {
        proof {
            reveal_strlit("9");
        }
        "9"
    } else if n == 10 {
        proof {
            reveal_strlit("a");
        }
        "a"
    } else if n == 11 {
        proof {
            reveal_strlit("b");
        }
        "b"
    } else if n == 12 {
        proof {
            reveal_strlit("c");
        }
        "c"
    } else if n == 13 {
        proof {
            reveal_strlit("d");
        }
        "d"
    } else if n == 14 {
        proof {
            reveal_strlit("e");
        }
        "e"
    } else {
        proof {
            reveal_strlit("f");
        }
        "f"
    }
}

/// Lowercase hex string of a byte sequence.
pub fn hex_string(data: &[u8]) -> (r: String)
    ensures
        r@ == spec_hex(data@),
{
    let mut out = String::new();
    let n = data.len();
    let mut i: usize = 0;
    while i < n
        invariant
            n == data@.len(),
            i <= n,
            out@ == spec_hex(data@.take(i as int)),
        decreases n - i,
    {
        let b = data[i];
        out.append(hex_digit_str(b / 16));
        out.append(hex_digit_str(b % 16));
        proof {
            lemma_spec_hex_snoc(data@.take(i as int), data@[i as int]);
            assert(data@.take(i as int).push(data@[i as int]) =~= data@.take(i + 1));
        }
        i = i + 1;
    }
    proof {
        assert(data@.take(n as int) =~= data@);
    }
    out
}

proof fn lemma_hex_digit_injective(n1: u8, n2: u8)
    requires
        n1 < 16,
        n2 < 16,
        spec_hex_digit(n1) == spec_hex_digit(n2),
    ensures
        n1 == n2,
{
}

proof fn lemma_spec_hex_len(s: Seq<u8>)
    ensures
        spec_hex(s).len() == 2 * s.len(),
    decreases s.len(),
{
    if s.len() > 0 {
        lemma_spec_hex_len(s.drop_first());
    }
}

/// Hex rendering is injective: equal digest strings mean equal digests.
pub proof fn lemma_hex_injective(a: Seq<u8>, b: Seq<u8>)
    requires
        spec_hex(a) == spec_hex(b),
    ensures
        a == b,
    decreases a.len(),
{
    lemma_spec_hex_len(a);
    lemma_spec_hex_len(b);
    if a.len() == 0 {
        assert(a =~= b);
    } else {
        assert(spec_hex(a)[0] == spec_hex_digit(a.first() / 16));
        assert(spec_hex(a)[1] == spec_hex_digit(a.first() % 16));
        assert(spec_hex(b)[0] == spec_hex_digit(b.first() / 16));
        assert(spec_hex(b)[1] == spec_hex_digit(b.first() % 16));
        lemma_hex_digit_injective(a.first() / 16, b.first() / 16);
        lemma_hex_digit_injective(a.first() % 16, b.first() % 16);
        assert(a.first() == b.first());
        assert(spec_hex(a.drop_first()) =~= spec_hex(b.drop_first())) by {
            assert forall|i: int| 0 <= i < spec_hex(a.drop_first()).len() implies spec_hex(
                a.drop_first(),
            )[i] == spec_hex(b.drop_first())[i] by {
                assert(spec_hex(a)[i + 2] == spec_hex(a.drop_first())[i]);
                assert(spec_hex(b)[i + 2] == spec_hex(b.drop_first())[i]);
            }
        }
        lemma_hex_injective(a.drop_first(), b.drop_first());
        assert(a =~= seq![a.first()] + a.drop_first());
        assert(b =~= seq![b.first()] + b.drop_first());
    }
}

/// The digest string of a byte blob: lowercase hex of its SHA-256 digest.
/// This is the content address used for identity and deduplication.
pub fn digest_hex(data: &[u8]) -> (r: String)
    ensures
        r@ == spec_hex(sha256_of(data@)),
{
    let d = sha256(data);
    hex_string(d.as_slice())
}

} // verus!
