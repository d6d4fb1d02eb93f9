//! Byte encodings of keys and values.
//!
//! Integers are written big-endian in a fixed width, so that the
//! byte-lexicographic order of two encodings is the numeric order of the
//! values. Records are the concatenation of their fields' encodings.

use vstd::prelude::*;

verus! {

/// Why a byte string is not the encoding of a value.
#[derive(Debug, Clone, Copy, PartialEq, Eq, Structural)]
pub enum DecodeError {
    /// The byte string has not the length that the type's encodings have.
    UnexpectedLength { expected: usize, actual: usize },
    /// The length fits, but the bytes stand for no value of the type.
    InvalidContent,
}

/// A value that can be written as bytes. Encoding never fails.
pub trait Encode: Sized {
    /// The bytes that stand for the value.
    spec fn encoding(&self) -> Seq<u8>;

    fn encode(&self) -> (bytes: Vec<u8>)
        ensures
            bytes@ == self.encoding(),
    ;
}

/// A value that can be read back from its bytes.
pub trait Decode: Encode {
    /// The value that a byte string stands for, or why it stands for none.
    spec fn decoding(bytes: Seq<u8>) -> Result<Self, DecodeError>;

    fn decode(bytes: &[u8]) -> (r: Result<Self, DecodeError>)
        ensures
            r == Self::decoding(bytes@),
    ;

    /// Every value is read back from its own encoding.
    proof fn lemma_round_trip(v: Self)
        ensures
            Self::decoding(v.encoding()) == Ok::<Self, DecodeError>(v),
    ;
}

/// A type whose encodings all have one length.
pub trait FixedWidth: Decode {
    spec fn width() -> nat;

    fn byte_width() -> (n: usize)
        ensures
            n == Self::width(),
    ;

    /// Encodings have the type's width, and a byte string of another length
    /// is refused for its length.
    proof fn lemma_width(v: Self, bytes: Seq<u8>)
        ensures
            v.encoding().len() == Self::width(),
            bytes.len() != Self::width() ==> Self::decoding(bytes) == Err::<Self, DecodeError>(
                wrong_length(Self::width(), bytes.len()),
            ),
    ;
}

/// The error for a byte string of `actual` bytes where `expected` are needed.
pub open spec fn wrong_length(expected: nat, actual: nat) -> DecodeError {
    DecodeError::UnexpectedLength { expected: expected as usize, actual: actual as usize }
}

/// `256` to the power `n`.
pub open spec fn pow256(n: nat) -> nat
    decreases n,
{
    if n == 0 {
        1
    } else {
        256 * pow256((n - 1) as nat)
    }
}

/// The `n` big-endian base-256 digits of `v`; digits above the `n`-th are dropped.
pub open spec fn be_bytes(v: nat, n: nat) -> Seq<u8>
    decreases n,
{
    if n == 0 {
        Seq::empty()
    } else {
        be_bytes(v / 256, (n - 1) as nat).push((v % 256) as u8)
    }
}

/// The number whose big-endian base-256 digits are `b`.
pub open spec fn be_value(b: Seq<u8>) -> nat
    decreases b.len(),
{
    if b.len() == 0 {
        0
    } else {
        be_value(b.drop_last()) * 256 + b.last() as nat
    }
}

/// Strict byte-lexicographic order: `a` is a proper prefix of `b`, or the
/// first position at which they differ holds the smaller byte in `a`.
pub open spec fn lex_lt(a: Seq<u8>, b: Seq<u8>) -> bool {
    exists|i: int| #[trigger] differs_below(a, b, i)
}

/// `a` and `b` agree before position `i`, and at `i` either `a` ends while `b`
/// goes on or `a` holds the smaller byte.
pub open spec fn differs_below(a: Seq<u8>, b: Seq<u8>, i: int) -> bool {
    &&& 0 <= i <= a.len()
    &&& i < b.len()
    &&& a.subrange(0, i) == b.subrange(0, i)
    &&& (i < a.len() ==> a[i] < b[i])
}

/// Every power of 256 is positive.
pub proof fn lemma_pow256_positive(n: nat)
    ensures
        pow256(n) > 0,
    decreases n,
{
    if n > 0 {
        lemma_pow256_positive((n - 1) as nat);
    }
}

/// The powers of 256 grow with the exponent.
pub proof fn lemma_pow256_monotone(m: nat, n: nat)
    requires
        m <= n,
    ensures
        pow256(m) <= pow256(n),
    decreases n,
{
    if m < n {
        lemma_pow256_monotone(m, (n - 1) as nat);
    }
}

/// The powers that bound the machine integers.
pub proof fn lemma_pow256_widths()
    ensures
        pow256(1) == 0x100,
        pow256(2) == 0x1_0000,
        pow256(4) == 0x1_0000_0000,
        pow256(8) == 0x1_0000_0000_0000_0000,
        pow256(16) == 0x1_0000_0000_0000_0000_0000_0000_0000_0000,
{
    reveal_with_fuel(pow256, 17);
}

/// `n` digits are `n` bytes.
pub proof fn lemma_be_bytes_len(v: nat, n: nat)
    ensures
        be_bytes(v, n).len() == n,
    decreases n,
{
    if n > 0 {
        lemma_be_bytes_len(v / 256, (n - 1) as nat);
    }
}

/// What `n` bytes stand for is below `256` to the power `n`.
pub proof fn lemma_be_value_bound(b: Seq<u8>)
    ensures
        be_value(b) < pow256(b.len()),
    decreases b.len(),
{
    if b.len() > 0 {
        lemma_be_value_bound(b.drop_last());
    }
}

/// Reading back `n` digits of `v` gives `v` without the digits that were dropped.
pub proof fn lemma_be_value_of_bytes(v: nat, n: nat)
    ensures
        be_value(be_bytes(v, n)) == v % pow256(n),
    decreases n,
{
    lemma_pow256_positive(n);
    if n == 0 {
    } else {
        let m = (n - 1) as nat;
        let head = be_bytes(v / 256, m);
        lemma_be_bytes_len(v / 256, m);
        lemma_be_value_of_bytes(v / 256, m);
        lemma_pow256_positive(m);
        assert(be_bytes(v, n).drop_last() =~= head);
        let p = pow256(m);
        vstd::arithmetic::div_mod::lemma_breakdown(v as int, 256, p as int);
        assert(v % (256 * p) == 256 * ((v / 256) % p) + v % 256);
    }
}

/// Writing the digits of what `b` stands for gives `b` back.
pub proof fn lemma_be_bytes_of_value(b: Seq<u8>)
    ensures
        be_bytes(be_value(b), b.len()) == b,
    decreases b.len(),
{
    if b.len() > 0 {
        let init = b.drop_last();
        lemma_be_bytes_of_value(init);
        let v = be_value(b);
        assert(v / 256 == be_value(init));
        assert(v % 256 == b.last() as nat);
        assert(be_bytes(v, b.len()) =~= b);
    } else {
        assert(be_bytes(be_value(b), 0) =~= b);
    }
}

/// Of two numbers that fit in `n` digits, the smaller has the smaller encoding.
pub proof fn lemma_be_bytes_ordered(v1: nat, v2: nat, n: nat)
    requires
        v1 < v2 < pow256(n),
    ensures
        lex_lt(be_bytes(v1, n), be_bytes(v2, n)),
    decreases n,
{
    if n == 0 {
    } else {
        let m = (n - 1) as nat;
        let a = be_bytes(v1, n);
        let b = be_bytes(v2, n);
        let a0 = be_bytes(v1 / 256, m);
        let b0 = be_bytes(v2 / 256, m);
        lemma_be_bytes_len(v1, n);
        lemma_be_bytes_len(v2, n);
        lemma_be_bytes_len(v1 / 256, m);
        lemma_be_bytes_len(v2 / 256, m);
        if v1 / 256 < v2 / 256 {
            lemma_be_bytes_ordered(v1 / 256, v2 / 256, m);
            let i = choose|i: int| #[trigger] differs_below(a0, b0, i);
            assert(a.subrange(0, i) =~= a0.subrange(0, i));
            assert(b.subrange(0, i) =~= b0.subrange(0, i));
            assert(differs_below(a, b, i));
        } else {
            assert(v1 / 256 == v2 / 256);
            assert(a.subrange(0, m as int) =~= a0);
            assert(b.subrange(0, m as int) =~= b0);
            assert(differs_below(a, b, m as int));
        }
    }
}

/// No byte string is below itself.
pub proof fn lemma_lex_lt_irreflexive(a: Seq<u8>)
    ensures
        !lex_lt(a, a),
{
}

/// Two byte strings are never each below the other.
pub proof fn lemma_lex_lt_asymmetric(a: Seq<u8>, b: Seq<u8>)
    requires
        lex_lt(a, b),
    ensures
        !lex_lt(b, a),
{
    let i = choose|i: int| #[trigger] differs_below(a, b, i);
    if lex_lt(b, a) {
        let j = choose|j: int| #[trigger] differs_below(b, a, j);
        if i < j {
            assert(b.subrange(0, j)[i] == a.subrange(0, j)[i]);
        } else if j < i {
            assert(a.subrange(0, i)[j] == b.subrange(0, i)[j]);
        }
    }
}

/// Writes `v` as `n` big-endian bytes: its low `n` bytes where it has more,
/// and zeros in front where it has fewer.
pub fn encode_be(v: u128, n: usize) -> (bytes: Vec<u8>)
    ensures
        bytes@ == be_bytes(v as nat, n as nat),
{
    let mut bytes: Vec<u8> = Vec::new();
    let mut k: usize = 0;
    while k < n
        invariant
            k <= n,
            bytes@.len() == k,
        decreases n - k,
    {
        bytes.push(0u8);
        k += 1;
    }
    let mut rest: u128 = v;
    let mut i: usize = 0;
    while i < n
        invariant
            i <= n,
            bytes@.len() == n,
            be_bytes(v as nat, n as nat) == be_bytes(rest as nat, (n - i) as nat) + bytes@.subrange(
                n - i,
                n as int,
            ),
        decreases n - i,
    {
        let ghost before = bytes@;
        let digit: u8 = (rest % 256) as u8;
        bytes.set(n - 1 - i, digit);
        proof {
            let m = (n - i) as nat;
            let head = be_bytes((rest / 256) as nat, (m - 1) as nat);
            lemma_be_bytes_len((rest / 256) as nat, (m - 1) as nat);
            assert(be_bytes(rest as nat, m) == head.push(digit));
            assert(head.push(digit) + before.subrange(n - i, n as int) =~= head + bytes@.subrange(
                n - i - 1,
                n as int,
            ));
        }
        rest = rest / 256;
        i += 1;
    }
    proof {
        assert(be_bytes(rest as nat, 0) =~= Seq::<u8>::empty());
        assert(bytes@.subrange(0, n as int) =~= bytes@);
        assert(Seq::<u8>::empty() + bytes@ =~= bytes@);
    }
    bytes
}

/// Reads up to sixteen big-endian bytes as a number.
pub fn decode_be(bytes: &[u8]) -> (v: u128)
    requires
        bytes@.len() <= 16,
    ensures
        v == be_value(bytes@),
{
    let n = bytes.len();
    let mut v: u128 = 0;
    let mut i: usize = 0;
    while i < n
        invariant
            i <= n,
            n == bytes@.len(),
            n <= 16,
            v == be_value(bytes@.subrange(0, i as int)),
        decreases n - i,
    {
        proof {
            let prefix = bytes@.subrange(0, i as int);
            let next = bytes@.subrange(0, i + 1);
            assert(next.drop_last() =~= prefix);
            assert(next.last() == bytes@[i as int]);
            lemma_be_value_bound(next);
            lemma_pow256_monotone((i + 1) as nat, 16);
            lemma_pow256_widths();
        }
        v = v * 256 + bytes[i] as u128;
        i += 1;
    }
    proof {
        assert(bytes@.subrange(0, n as int) =~= bytes@);
    }
    v
}

impl Encode for u64 {
    open spec fn encoding(&self) -> Seq<u8> {
        be_bytes(*self as nat, 8)
    }

    fn encode(&self) -> (bytes: Vec<u8>) {
        encode_be(*self as u128, 8)
    }
}

impl Decode for u64 {
    open spec fn decoding(bytes: Seq<u8>) -> Result<u64, DecodeError> {
        if bytes.len() == 8 {
            Ok(be_value(bytes) as u64)
        } else {
            Err(wrong_length(8, bytes.len()))
        }
    }

    fn decode(bytes: &[u8]) -> (r: Result<u64, DecodeError>) {
        if bytes.len() != 8 {
            return Err(DecodeError::UnexpectedLength { expected: 8, actual: bytes.len() });
        }
        let v = decode_be(bytes);
        proof {
            lemma_be_value_bound(bytes@);
            lemma_pow256_widths();
        }
        Ok(v as u64)
    }

    proof fn lemma_round_trip(v: u64) {
        lemma_be_bytes_len(v as nat, 8);
        lemma_be_value_of_bytes(v as nat, 8);
        lemma_pow256_widths();
    }
}

impl FixedWidth for u64 {
    open spec fn width() -> nat {
        8
    }

    fn byte_width() -> (n: usize) {
        8
    }

    proof fn lemma_width(v: u64, bytes: Seq<u8>) {
        lemma_be_bytes_len(v as nat, 8);
    }
}

impl Encode for u128 {
    open spec fn encoding(&self) -> Seq<u8> {
        be_bytes(*self as nat, 16)
    }

    fn encode(&self) -> (bytes: Vec<u8>) {
        encode_be(*self, 16)
    }
}

impl Decode for u128 {
    open spec fn decoding(bytes: Seq<u8>) -> Result<u128, DecodeError> {
        if bytes.len() == 16 {
            Ok(be_value(bytes) as u128)
        } else {
            Err(wrong_length(16, bytes.len()))
        }
    }

    fn decode(bytes: &[u8]) -> (r: Result<u128, DecodeError>) {
        if bytes.len() != 16 {
            return Err(DecodeError::UnexpectedLength { expected: 16, actual: bytes.len() });
        }
        let v = decode_be(bytes);
        Ok(v)
    }

    proof fn lemma_round_trip(v: u128) {
        lemma_be_bytes_len(v as nat, 16);
        lemma_be_value_of_bytes(v as nat, 16);
        lemma_pow256_widths();
    }
}

impl FixedWidth for u128 {
    open spec fn width() -> nat {
        16
    }

    fn byte_width() -> (n: usize) {
        16
    }

    proof fn lemma_width(v: u128, bytes: Seq<u8>) {
        lemma_be_bytes_len(v as nat, 16);
    }
}

/// Integer keys sort as their encodings do: one key is below another exactly
/// when its encoding is below the other's in byte-lexicographic order.
pub proof fn lemma_u64_order_preserved(k1: u64, k2: u64)
    ensures
        k1 < k2 <==> lex_lt(k1.encoding(), k2.encoding()),
{
    lemma_pow256_widths();
    if k1 < k2 {
        lemma_be_bytes_ordered(k1 as nat, k2 as nat, 8);
    } else if k2 < k1 {
        lemma_be_bytes_ordered(k2 as nat, k1 as nat, 8);
        if lex_lt(k1.encoding(), k2.encoding()) {
            lemma_lex_lt_asymmetric(k1.encoding(), k2.encoding());
        }
    } else {
        lemma_lex_lt_irreflexive(k1.encoding());
    }
}

/// The same for sixteen-byte integers.
pub proof fn lemma_u128_order_preserved(k1: u128, k2: u128)
    ensures
        k1 < k2 <==> lex_lt(k1.encoding(), k2.encoding()),
{
    lemma_pow256_widths();
    if k1 < k2 {
        lemma_be_bytes_ordered(k1 as nat, k2 as nat, 16);
    } else if k2 < k1 {
        lemma_be_bytes_ordered(k2 as nat, k1 as nat, 16);
        if lex_lt(k1.encoding(), k2.encoding()) {
            lemma_lex_lt_asymmetric(k1.encoding(), k2.encoding());
        }
    } else {
        lemma_lex_lt_irreflexive(k1.encoding());
    }
}

/// An integer's encoding is the only byte string that decodes to it.
pub proof fn lemma_u64_encoding_unique(bytes: Seq<u8>)
    requires
        u64::decoding(bytes).is_ok(),
    ensures
        u64::decoding(bytes).unwrap().encoding() == bytes,
{
    lemma_be_bytes_of_value(bytes);
    lemma_be_value_bound(bytes);
    lemma_pow256_widths();
}

/// Reads the field of a record that starts at `start`.
pub fn decode_at<T: FixedWidth>(bytes: &[u8], start: usize) -> (r: Result<T, DecodeError>)
    requires
        start + T::width() <= bytes@.len(),
    ensures
        r == T::decoding(bytes@.subrange(start as int, start + T::width())),
{
    let n = T::byte_width();
    let len = bytes.len();
    assert(start + n <= len);
    T::decode(vstd::slice::slice_subrange(bytes, start, start + n))
}

/// Appends the encoding of `v` to `out`.
pub fn encode_onto<T: Encode>(out: &mut Vec<u8>, v: &T)
    ensures
        final(out)@ == old(out)@ + v.encoding(),
{
    let mut bytes = v.encode();
    out.append(&mut bytes);
}

/// Two values with one encoding are one value: no two keys meet in the store.
pub proof fn lemma_encoding_injective<T: Decode>(a: T, b: T)
    requires
        a.encoding() == b.encoding(),
    ensures
        a == b,
{
    T::lemma_round_trip(a);
    T::lemma_round_trip(b);
}

/// Byte strings that agree before position `k` and are not equal are ordered
/// one way or the other.
proof fn lemma_lex_lt_total_from(a: Seq<u8>, b: Seq<u8>, k: int)
    requires
        0 <= k <= a.len(),
        k <= b.len(),
        a.subrange(0, k) == b.subrange(0, k),
        a != b,
    ensures
        lex_lt(a, b) || lex_lt(b, a),
    decreases a.len() - k,
{
    if k == a.len() {
        if k == b.len() {
            assert(a.subrange(0, k) =~= a);
            assert(b.subrange(0, k) =~= b);
        } else {
            assert(differs_below(a, b, k));
        }
    } else if k == b.len() {
        assert(differs_below(b, a, k));
    } else if a[k] < b[k] {
        assert(differs_below(a, b, k));
    } else if b[k] < a[k] {
        assert(differs_below(b, a, k));
    } else {
        assert(a.subrange(0, k + 1) =~= a.subrange(0, k).push(a[k]));
        assert(b.subrange(0, k + 1) =~= b.subrange(0, k).push(b[k]));
        lemma_lex_lt_total_from(a, b, k + 1);
    }
}

/// Of two different byte strings one is below the other.
pub proof fn lemma_lex_lt_total(a: Seq<u8>, b: Seq<u8>)
    requires
        a != b,
    ensures
        lex_lt(a, b) || lex_lt(b, a),
{
    assert(a.subrange(0, 0) =~= b.subrange(0, 0));
    lemma_lex_lt_total_from(a, b, 0);
}

/// What is below a byte string is below all that the string is below.
pub proof fn lemma_lex_lt_transitive(a: Seq<u8>, b: Seq<u8>, c: Seq<u8>)
    requires
        lex_lt(a, b),
        lex_lt(b, c),
    ensures
        lex_lt(a, c),
{
    let i = choose|i: int| #[trigger] differs_below(a, b, i);
    let j = choose|j: int| #[trigger] differs_below(b, c, j);
    let m = if i <= j {
        i
    } else {
        j
    };
    assert(a.subrange(0, m) =~= c.subrange(0, m)) by {
        assert forall|x: int| 0 <= x < m implies a[x] == c[x] by {
            assert(a.subrange(0, i)[x] == b.subrange(0, i)[x]);
            assert(b.subrange(0, j)[x] == c.subrange(0, j)[x]);
        }
    }
    if i < j {
        assert(b.subrange(0, j)[i] == c.subrange(0, j)[i]);
    } else if j < i {
        assert(a.subrange(0, i)[j] == b.subrange(0, i)[j]);
    }
    assert(differs_below(a, c, m));
}

/// Stored integer keys lie in the store as the integers are ordered: of two
/// byte strings that hold integer keys, one is below the other exactly when
/// its key is the smaller. So what a cursor finds at or after the bytes of a
/// key is an entry whose key is not below it, and a walk meets the keys in
/// ascending order.
pub proof fn lemma_u64_stored_order(a: Seq<u8>, b: Seq<u8>)
    requires
        u64::decoding(a).is_ok(),
        u64::decoding(b).is_ok(),
    ensures
        lex_lt(a, b) <==> u64::decoding(a).unwrap() < u64::decoding(b).unwrap(),
{
    lemma_u64_encoding_unique(a);
    lemma_u64_encoding_unique(b);
    lemma_u64_order_preserved(u64::decoding(a).unwrap(), u64::decoding(b).unwrap());
}

/// Records sort field by field: with first parts of one length, one
/// concatenation is below another exactly when its first part is below the
/// other's, or the first parts are equal and its second part is below.
pub proof fn lemma_lex_lt_concat(
    front: Seq<u8>,
    rest: Seq<u8>,
    other_front: Seq<u8>,
    other_rest: Seq<u8>,
)
    requires
        front.len() == other_front.len(),
    ensures
        lex_lt(front + rest, other_front + other_rest) <==> lex_lt(front, other_front) || (front
            == other_front && lex_lt(rest, other_rest)),
{
    let a = front + rest;
    let b = other_front + other_rest;
    let n = front.len() as int;
    if lex_lt(front, other_front) {
        let i = choose|i: int| #[trigger] differs_below(front, other_front, i);
        assert(a.subrange(0, i) =~= front.subrange(0, i));
        assert(b.subrange(0, i) =~= other_front.subrange(0, i));
        assert(differs_below(a, b, i));
    }
    if front == other_front && lex_lt(rest, other_rest) {
        let j = choose|j: int| #[trigger] differs_below(rest, other_rest, j);
        assert(a.subrange(0, n + j) =~= front + rest.subrange(0, j));
        assert(b.subrange(0, n + j) =~= other_front + other_rest.subrange(0, j));
        assert(differs_below(a, b, n + j));
    }
    if lex_lt(a, b) {
        let i = choose|i: int| #[trigger] differs_below(a, b, i);
        if i < n {
            assert(front.subrange(0, i) =~= a.subrange(0, i));
            assert(other_front.subrange(0, i) =~= b.subrange(0, i));
            assert(front[i] == a[i] && other_front[i] == b[i]);
            assert(differs_below(front, other_front, i));
        } else {
            assert(front =~= other_front) by {
                assert forall|x: int| 0 <= x < n implies front[x] == other_front[x] by {
                    assert(a.subrange(0, i)[x] == b.subrange(0, i)[x]);
                }
            }
            assert(rest.subrange(0, i - n) =~= other_rest.subrange(0, i - n)) by {
                assert forall|x: int| 0 <= x < i - n implies rest[x] == other_rest[x] by {
                    assert(a.subrange(0, i)[n + x] == b.subrange(0, i)[n + x]);
                }
            }
            if i < a.len() {
                assert(a[i] == rest[i - n] && b[i] == other_rest[i - n]);
            }
            assert(differs_below(rest, other_rest, i - n));
        }
    }
}

} // verus!
