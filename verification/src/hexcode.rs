use vstd::prelude::*;

use crate::errors::TransferError;

verus! {

/// True when `b` is the ASCII code of a hexadecimal digit, either case.
pub open spec fn is_hex_digit(b: u8) -> bool {
    (48 <= b && b <= 57) || (97 <= b && b <= 102) || (65 <= b && b <= 70)
}

/// The numeric value of a hexadecimal digit byte.
pub open spec fn hex_val(b: u8) -> u8
    recommends
        is_hex_digit(b),
{
    if 48 <= b && b <= 57 {
        (b - 48) as u8
    } else if 97 <= b && b <= 102 {
        (b - 87) as u8
    } else {
        (b - 55) as u8
    }
}

/// The lowercase hexadecimal digit byte for a value below 16.
pub open spec fn hex_digit_lower(v: u8) -> u8
    recommends
        v < 16,
{
    if v < 10 {
        (v + 48) as u8
    } else {
        (v + 87) as u8
    }
}

/// Lowercase hex encoding of a byte sequence: two digit bytes per input byte.
pub open spec fn spec_hex_encode(bytes: Seq<u8>) -> Seq<u8>
    decreases bytes.len(),
{
    if bytes.len() == 0 {
        Seq::<u8>::empty()
    } else {
        seq![
            hex_digit_lower(bytes.first() / 16),
            hex_digit_lower(bytes.first() % 16),
        ] + spec_hex_encode(bytes.drop_first())
    }
}

/// Decoding of an even-length sequence of hex digit bytes, one byte per digit pair.
pub open spec fn spec_hex_decode(s: Seq<u8>) -> Seq<u8>
    recommends
        s.len() % 2 == 0,
        forall|i: int| 0 <= i < s.len() ==> is_hex_digit(s[i]),
    decreases s.len(),
{
    if s.len() < 2 {
        Seq::<u8>::empty()
    } else {
        seq![(hex_val(s[0]) * 16 + hex_val(s[1])) as u8] + spec_hex_decode(s.skip(2))
    }
}

pub proof fn lemma_hex_encode_len(bytes: Seq<u8>)
    ensures
        spec_hex_encode(bytes).len() == 2 * bytes.len(),
    decreases bytes.len(),
{
    if bytes.len() > 0 {
        lemma_hex_encode_len(bytes.drop_first());
    }
}

pub proof fn lemma_hex_encode_concat(a: Seq<u8>, b: Seq<u8>)
    ensures
        spec_hex_encode(a + b) == spec_hex_encode(a) + spec_hex_encode(b),
    decreases a.len(),
{
    if a.len() == 0 {
        assert(a + b == b);
        assert(spec_hex_encode(a) + spec_hex_encode(b) == spec_hex_encode(b));
    } else {
        lemma_hex_encode_concat(a.drop_first(), b);
        assert((a + b).drop_first() == a.drop_first() + b);
        assert(spec_hex_encode(a + b) == spec_hex_encode(a) + spec_hex_encode(b));
    }
}

/// Every byte of a hex encoding is a lowercase hex digit.
pub proof fn lemma_hex_encode_digits(bytes: Seq<u8>)
    ensures
        forall|i: int|
            0 <= i < spec_hex_encode(bytes).len() ==> #[trigger] is_hex_digit(
                spec_hex_encode(bytes)[i],
            ),
    decreases bytes.len(),
{
    if bytes.len() > 0 {
        lemma_hex_encode_digits(bytes.drop_first());
        let enc = spec_hex_encode(bytes);
        let rest = spec_hex_encode(bytes.drop_first());
        assert forall|i: int| 0 <= i < enc.len() implies #[trigger] is_hex_digit(enc[i]) by {
            if i >= 2 {
                assert(enc[i] == rest[i - 2]);
                assert(is_hex_digit(rest[i - 2]));
            }
        }
    }
}

/// Decoding a hex encoding gives back the original bytes.
pub proof fn lemma_hex_round_trip(bytes: Seq<u8>)
    ensures
        spec_hex_decode(spec_hex_encode(bytes)) == bytes,
    decreases bytes.len(),
{
    lemma_hex_encode_len(bytes);
    if bytes.len() == 0 {
        assert(spec_hex_decode(spec_hex_encode(bytes)) == bytes);
    } else {
        lemma_hex_round_trip(bytes.drop_first());
        lemma_hex_encode_len(bytes.drop_first());
        let enc = spec_hex_encode(bytes);
        assert(enc.skip(2) == spec_hex_encode(bytes.drop_first()));
        assert(hex_val(enc[0]) == bytes.first() / 16);
        assert(hex_val(enc[1]) == bytes.first() % 16);
        assert(spec_hex_decode(enc) == seq![bytes.first()] + bytes.drop_first());
        assert(seq![bytes.first()] + bytes.drop_first() == bytes);
    }
}

/// Encodes bytes as lowercase hexadecimal, two digits per byte.
pub fn to_hex(bytes: &[u8]) -> (r: Vec<u8>)
    ensures
        r@ == spec_hex_encode(bytes@),
        r@.len() == 2 * bytes@.len(),
{
    let mut out: Vec<u8> = Vec::new();
    let n = bytes.len();
    assert(bytes@.take(0int) == Seq::<u8>::empty());
    for i in 0..n
        invariant
            n == bytes@.len(),
            out@ == spec_hex_encode(bytes@.take(i as int)),
            out@.len() == 2 * i,
    {
        let b = bytes[i];
        let hi: u8 = b / 16;
        let lo: u8 = b % 16;
        let hi_digit: u8 = if hi < 10 {
            hi + 48
        } else {
            hi + 87
        };
        let lo_digit: u8 = if lo < 10 {
            lo + 48
        } else {
            lo + 87
        };
        out.push(hi_digit);
        out.push(lo_digit);
        proof {
            lemma_hex_encode_concat(bytes@.take(i as int), seq![bytes@[i as int]]);
            assert(bytes@.take(i + 1) == bytes@.take(i as int) + seq![bytes@[i as int]]);
            assert(seq![bytes@[i as int]].drop_first() =~= Seq::<u8>::empty());
            assert(spec_hex_encode(Seq::<u8>::empty()) == Seq::<u8>::empty());
            assert(seq![bytes@[i as int]].first() == bytes@[i as int]);
            assert(spec_hex_encode(seq![bytes@[i as int]]) =~= seq![
                hex_digit_lower(b / 16),
                hex_digit_lower(b % 16),
            ]);
        }
    }
    proof {
        assert(bytes@.take(n as int) == bytes@);
    }
    out
}

/// Decodes hexadecimal digits (either case) into bytes; rejects any other input.
pub fn from_hex(s: &[u8]) -> (r: Result<Vec<u8>, TransferError>)
    ensures
        r is Ok <==> (s@.len() % 2 == 0 && forall|i: int|
            0 <= i < s@.len() ==> is_hex_digit(s@[i])),
        r matches Ok(b) ==> b@ == spec_hex_decode(s@) && b@.len() == s@.len() / 2,
        r is Err ==> r == Err::<Vec<u8>, TransferError>(TransferError::InvalidInput),
{
    let n = s.len();
    if n % 2 != 0 {
        return Err(TransferError::InvalidInput);
    }
    let mut out: Vec<u8> = Vec::new();
    let pairs = n / 2;
    assert(s@.take(0int) == Seq::<u8>::empty());
    for k in 0..pairs
        invariant
            n == s@.len(),
            n % 2 == 0,
            pairs == n / 2,
            out@ == spec_hex_decode(s@.take(2 * k)),
            out@.len() == k,
            forall|i: int| 0 <= i < 2 * k ==> is_hex_digit(s@[i]),
    {
        let hi = s[2 * k];
        let lo = s[2 * k + 1];
        let hv = match hex_digit_value(hi) {
            Some(v) => v,
            None => {
                return Err(TransferError::InvalidInput);
            },
        };
        let lv = match hex_digit_value(lo) {
            Some(v) => v,
            None => {
                return Err(TransferError::InvalidInput);
            },
        };
        out.push(hv * 16 + lv);
        proof {
            lemma_hex_decode_step(s@.take(2 * k + 2));
            assert(s@.take(2 * k + 2).take(2 * k as int) == s@.take(2 * k as int));
            assert(s@.take(2 * k + 2)[2 * k as int] == s@[2 * k as int]);
            assert(s@.take(2 * k + 2)[2 * k + 1] == s@[2 * k + 1]);
        }
    }
    proof {
        assert(s@.take(2 * (pairs as int)) == s@);
    }
    Ok(out)
}

/// The last decoded byte of an even-length digit string comes from its last pair.
proof fn lemma_hex_decode_step(s: Seq<u8>)
    requires
        s.len() >= 2,
        s.len() % 2 == 0,
    ensures
        spec_hex_decode(s) == spec_hex_decode(s.take(s.len() - 2)) + seq![
            (hex_val(s[s.len() - 2]) * 16 + hex_val(s[s.len() - 1])) as u8,
        ],
    decreases s.len(),
{
    if s.len() == 2 {
        assert(s.take(0int) == Seq::<u8>::empty());
        assert(spec_hex_decode(s) == seq![(hex_val(s[0]) * 16 + hex_val(s[1])) as u8]);
        assert(spec_hex_decode(s.take(s.len() - 2)) + seq![
            (hex_val(s[s.len() - 2]) * 16 + hex_val(s[s.len() - 1])) as u8,
        ] == spec_hex_decode(s));
    } else {
        lemma_hex_decode_step(s.skip(2));
        assert(s.skip(2).take(s.len() - 4) == s.take(s.len() - 2).skip(2));
        assert(s.skip(2)[s.len() - 4] == s[s.len() - 2]);
        assert(s.skip(2)[s.len() - 3] == s[s.len() - 1]);
        assert(spec_hex_decode(s) == seq![(hex_val(s[0]) * 16 + hex_val(s[1])) as u8]
            + spec_hex_decode(s.skip(2)));
        assert(spec_hex_decode(s.take(s.len() - 2)) == seq![
            (hex_val(s[0]) * 16 + hex_val(s[1])) as u8,
        ] + spec_hex_decode(s.take(s.len() - 2).skip(2)));
        assert(spec_hex_decode(s) == spec_hex_decode(s.take(s.len() - 2)) + seq![
            (hex_val(s[s.len() - 2]) * 16 + hex_val(s[s.len() - 1])) as u8,
        ]);
    }
}

/// The numeric value of one hexadecimal digit byte, `None` on any other byte.
pub fn hex_digit_value(b: u8) -> (r: Option<u8>)
    ensures
        r is Some <==> is_hex_digit(b),
        r matches Some(v) ==> v == hex_val(b) && v < 16,
{
    if 48 <= b && b <= 57 {
        Some(b - 48)
    } else if 97 <= b && b <= 102 {
        Some(b - 87)
    } else if 65 <= b && b <= 70 {
        Some(b - 55)
    } else {
        None
    }
}

} // verus!
