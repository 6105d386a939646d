use vstd::prelude::*;
use crate::params::{SQLT_INT, SQLT_UIN};

verus! {

/// 256 to the power `n`.
pub open spec fn pow256(n: nat) -> nat
    decreases n,
{
    if n == 0 {
        1
    } else {
        256 * pow256((n - 1) as nat)
    }
}

/// The `n` little-endian bytes of `v` (the low byte first).
pub open spec fn le_bytes(v: nat, n: nat) -> Seq<u8>
    decreases n,
{
    if n == 0 {
        Seq::empty()
    } else {
        seq![(v % 256) as u8] + le_bytes(v / 256, (n - 1) as nat)
    }
}

/// The number that little-endian bytes stand for.
pub open spec fn le_value(b: Seq<u8>) -> nat
    decreases b.len(),
{
    if b.len() == 0 {
        0
    } else {
        b[0] as nat + 256 * le_value(b.drop_first())
    }
}

/// The `n` bytes of `v` in little-endian order, or else big-endian.
pub open spec fn ordered_bytes(v: nat, n: nat, little: bool) -> Seq<u8> {
    if little {
        le_bytes(v, n)
    } else {
        le_bytes(v, n).reverse()
    }
}

/// The number that bytes in little-endian order, or else big-endian,
/// stand for.
pub open spec fn ordered_value(b: Seq<u8>, little: bool) -> nat {
    if little {
        le_value(b)
    } else {
        le_value(b.reverse())
    }
}

pub proof fn lemma_pow256_8()
    ensures
        pow256(1) == 0x100,
        pow256(2) == 0x1_0000,
        pow256(4) == 0x1_0000_0000,
        pow256(8) == 0x1_0000_0000_0000_0000,
{
    reveal_with_fuel(pow256, 9);
}

pub proof fn lemma_pow256_positive(n: nat)
    ensures
        pow256(n) >= 1,
    decreases n,
{
    if n > 0 {
        lemma_pow256_positive((n - 1) as nat);
    }
}

pub proof fn lemma_pow256_monotonic(m: nat, n: nat)
    requires
        m <= n,
    ensures
        pow256(m) <= pow256(n),
    decreases n,
{
    if m < n {
        lemma_pow256_monotonic(m, (n - 1) as nat);
        lemma_pow256_positive((n - 1) as nat);
    }
}

/// Little-endian bytes give back the number they were made from.
pub proof fn lemma_le_round_trip(v: nat, n: nat)
    requires
        v < pow256(n),
    ensures
        le_bytes(v, n).len() == n,
        le_value(le_bytes(v, n)) == v,
    decreases n,
{
    if n > 0 {
        let p = pow256((n - 1) as nat);
        assert(v / 256 < p) by (nonlinear_arith)
            requires
                v < 256 * p,
        ;
        lemma_le_round_trip(v / 256, (n - 1) as nat);
        let b = le_bytes(v, n);
        assert(b.drop_first() =~= le_bytes(v / 256, (n - 1) as nat));
        assert(v == v % 256 + 256 * (v / 256)) by (nonlinear_arith);
    }
}

/// The number that `n` bytes stand for is below `256^n`.
pub proof fn lemma_le_value_bound(b: Seq<u8>)
    ensures
        le_value(b) < pow256(b.len()),
    decreases b.len(),
{
    if b.len() > 0 {
        lemma_le_value_bound(b.drop_first());
        let r = le_value(b.drop_first());
        let p = pow256((b.len() - 1) as nat);
        assert(b[0] as nat + 256 * r < 256 * p) by (nonlinear_arith)
            requires
                r < p,
                b[0] < 256,
        ;
    }
}

/// Bytes in either order give back the number they were made from.
pub proof fn lemma_ordered_round_trip(v: nat, n: nat, little: bool)
    requires
        v < pow256(n),
    ensures
        ordered_bytes(v, n, little).len() == n,
        ordered_value(ordered_bytes(v, n, little), little) == v,
{
    lemma_le_round_trip(v, n);
    assert(le_bytes(v, n).reverse().reverse() =~= le_bytes(v, n));
}

/// The `n` bytes of `v` in little-endian order, or else big-endian.
pub fn encode_bits(v: u64, n: usize, little: bool) -> (r: Vec<u8>)
    ensures
        r@ == ordered_bytes(v as nat, n as nat, little),
{
    let mut le: Vec<u8> = Vec::new();
    let mut x: u64 = v;
    let mut k: usize = 0;
    while k < n
        invariant
            k <= n,
            le@ + le_bytes(x as nat, (n - k) as nat) == le_bytes(v as nat, n as nat),
        decreases n - k,
    {
        let ghost before = le@;
        le.push((x % 256) as u8);
        proof {
            assert(le_bytes(x as nat, (n - k) as nat) =~= seq![(x % 256) as u8] + le_bytes((x / 256) as nat, (n - k - 1) as nat));
            assert(le@ + le_bytes((x / 256) as nat, (n - k - 1) as nat) =~= before + le_bytes(x as nat, (n - k) as nat));
        }
        x = x / 256;
        k += 1;
    }
    proof {
        assert(le@ =~= le_bytes(v as nat, n as nat));
    }
    if little {
        le
    } else {
        reversed(&le)
    }
}

/// The bytes of `b` in the opposite order.
pub fn reversed(b: &[u8]) -> (r: Vec<u8>)
    ensures
        r@ == b@.reverse(),
{
    let mut r: Vec<u8> = Vec::new();
    let mut i: usize = b.len();
    while i > 0
        invariant
            i <= b@.len(),
            r@ =~= b@.skip(i as int).reverse(),
        decreases i,
    {
        i -= 1;
        r.push(b[i]);
        proof {
            assert(b@.skip(i as int).reverse() =~= b@.skip(i + 1).reverse().push(b@[i as int]));
        }
    }
    proof {
        assert(b@.skip(0) =~= b@);
    }
    r
}

/// The number that at most 8 little-endian bytes stand for.
fn decode_le(b: &[u8]) -> (r: u64)
    requires
        b@.len() <= 8,
    ensures
        r == le_value(b@),
{
    let mut acc: u64 = 0;
    let mut i: usize = b.len();
    proof {
        lemma_pow256_8();
    }
    while i > 0
        invariant
            i <= b@.len() <= 8,
            acc == le_value(b@.skip(i as int)),
            pow256(8) == 0x1_0000_0000_0000_0000,
        decreases i,
    {
        i -= 1;
        proof {
            assert(b@.skip(i as int).drop_first() =~= b@.skip(i + 1));
            lemma_le_value_bound(b@.skip(i as int));
            lemma_pow256_monotonic((b@.len() - i) as nat, 8);
            assert(le_value(b@.skip(i as int)) == b@[i as int] as nat + 256 * acc);
        }
        acc = acc * 256 + b[i] as u64;
    }
    proof {
        assert(b@.skip(0) =~= b@);
    }
    acc
}

/// The number that at most 8 bytes in little-endian order, or else
/// big-endian, stand for.
pub fn decode_bits(b: &[u8], little: bool) -> (r: u64)
    requires
        b@.len() <= 8,
    ensures
        r == ordered_value(b@, little),
{
    if little {
        decode_le(b)
    } else {
        let le = reversed(b);
        decode_le(le.as_slice())
    }
}

/// Calls `u16::to_ne_bytes` on 1: the two bytes of 1 in the machine's byte
/// order.  By the standard library's documentation they are `(1, 0)` on a
/// little-endian machine and `(0, 1)` on a big-endian one; the contract
/// states that it is one of the two, not which.
#[verifier::external_body]
pub(crate) fn one_in_native_order() -> (r: (u8, u8))
    ensures
        (r.0 == 1 && r.1 == 0) || (r.0 == 0 && r.1 == 1),
{
    let b = 1u16.to_ne_bytes();
    (b[0], b[1])
}

/// Bytes in either order stand for a number below `256^len`.
pub proof fn lemma_ordered_value_bound(b: Seq<u8>, little: bool)
    ensures
        ordered_value(b, little) < pow256(b.len()),
{
    lemma_le_value_bound(b);
    lemma_le_value_bound(b.reverse());
}

/// Whether this machine stores numbers with the low byte first.
pub fn native_is_little_endian() -> (r: bool) {
    let (lo, _hi) = one_in_native_order();
    lo == 1
}


/// A fixed-size number that can be bound in an array: its memory
/// representation is the `size()` bytes of the unsigned number `bits()`.
pub trait BatchValue: Sized + Copy {
    /// The unsigned number whose bytes represent the value.
    spec fn bits(self) -> nat;

    /// The value that the unsigned number `b` represents.
    spec fn from_bits_spec(b: nat) -> Self;

    /// The size of a value in bytes.
    spec fn size() -> nat;

    /// The external type code of the value's type.
    spec fn spec_sql_type() -> u16;

    /// The name of the value's type.
    spec fn name() -> Seq<char>;

    /// The name of the type of an optional value.
    spec fn option_name() -> Seq<char>;

    /// Values take between one and eight bytes.
    proof fn lemma_size()
        ensures
            1 <= Self::size() <= 8,
    ;

    /// A value's representation fits in its size and represents it.
    proof fn lemma_bits(v: Self)
        ensures
            1 <= Self::size() <= 8,
            v.bits() < pow256(Self::size()),
            Self::from_bits_spec(v.bits()) == v,
    ;

    fn byte_size() -> (r: usize)
        ensures
            r == Self::size(),
    ;

    fn sql_type() -> (r: u16)
        ensures
            r == Self::spec_sql_type(),
    ;

    fn value_name() -> (r: &'static str)
        ensures
            r@ == Self::name(),
    ;

    fn option_value_name() -> (r: &'static str)
        ensures
            r@ == Self::option_name(),
    ;

    fn to_bits(&self) -> (r: u64)
        ensures
            r == self.bits(),
    ;

    fn from_bits(b: u64) -> (r: Self)
        requires
            b < pow256(Self::size()),
        ensures
            r == Self::from_bits_spec(b as nat),
    ;
}

impl BatchValue for i8 {
    open spec fn bits(self) -> nat {
        (self as u8) as nat
    }

    open spec fn from_bits_spec(b: nat) -> Self {
        (b as u8) as i8
    }

    open spec fn size() -> nat {
        1
    }

    open spec fn spec_sql_type() -> u16 {
        SQLT_INT
    }

    open spec fn name() -> Seq<char> {
        "i8"@
    }

    open spec fn option_name() -> Seq<char> {
        "Option<i8>"@
    }

    proof fn lemma_size() {
    }

    proof fn lemma_bits(v: Self) {
        lemma_pow256_8();
        assert(((v as u8) as i8) == v) by (bit_vector);
    }

    fn byte_size() -> (r: usize) {
        1
    }

    fn sql_type() -> (r: u16) {
        SQLT_INT
    }

    fn value_name() -> (r: &'static str) {
        "i8"
    }

    fn option_value_name() -> (r: &'static str) {
        "Option<i8>"
    }

    fn to_bits(&self) -> (r: u64) {
        (#[verifier::truncate] (*self as u8)) as u64
    }

    fn from_bits(b: u64) -> (r: Self) {
        proof {
            lemma_pow256_8();
        }
        #[verifier::truncate] ((b as u8) as i8)
    }
}

impl BatchValue for i16 {
    open spec fn bits(self) -> nat {
        (self as u16) as nat
    }

    open spec fn from_bits_spec(b: nat) -> Self {
        (b as u16) as i16
    }

    open spec fn size() -> nat {
        2
    }

    open spec fn spec_sql_type() -> u16 {
        SQLT_INT
    }

    open spec fn name() -> Seq<char> {
        "i16"@
    }

    open spec fn option_name() -> Seq<char> {
        "Option<i16>"@
    }

    proof fn lemma_size() {
    }

    proof fn lemma_bits(v: Self) {
        lemma_pow256_8();
        assert(((v as u16) as i16) == v) by (bit_vector);
    }

    fn byte_size() -> (r: usize) {
        2
    }

    fn sql_type() -> (r: u16) {
        SQLT_INT
    }

    fn value_name() -> (r: &'static str) {
        "i16"
    }

    fn option_value_name() -> (r: &'static str) {
        "Option<i16>"
    }

    fn to_bits(&self) -> (r: u64) {
        (#[verifier::truncate] (*self as u16)) as u64
    }

    fn from_bits(b: u64) -> (r: Self) {
        proof {
            lemma_pow256_8();
        }
        #[verifier::truncate] ((b as u16) as i16)
    }
}

impl BatchValue for i32 {
    open spec fn bits(self) -> nat {
        (self as u32) as nat
    }

    open spec fn from_bits_spec(b: nat) -> Self {
        (b as u32) as i32
    }

    open spec fn size() -> nat {
        4
    }

    open spec fn spec_sql_type() -> u16 {
        SQLT_INT
    }

    open spec fn name() -> Seq<char> {
        "i32"@
    }

    open spec fn option_name() -> Seq<char> {
        "Option<i32>"@
    }

    proof fn lemma_size() {
    }

    proof fn lemma_bits(v: Self) {
        lemma_pow256_8();
        assert(((v as u32) as i32) == v) by (bit_vector);
    }

    fn byte_size() -> (r: usize) {
        4
    }

    fn sql_type() -> (r: u16) {
        SQLT_INT
    }

    fn value_name() -> (r: &'static str) {
        "i32"
    }

    fn option_value_name() -> (r: &'static str) {
        "Option<i32>"
    }

    fn to_bits(&self) -> (r: u64) {
        (#[verifier::truncate] (*self as u32)) as u64
    }

    fn from_bits(b: u64) -> (r: Self) {
        proof {
            lemma_pow256_8();
        }
        #[verifier::truncate] ((b as u32) as i32)
    }
}

impl BatchValue for i64 {
    open spec fn bits(self) -> nat {
        (self as u64) as nat
    }

    open spec fn from_bits_spec(b: nat) -> Self {
        (b as u64) as i64
    }

    open spec fn size() -> nat {
        8
    }

    open spec fn spec_sql_type() -> u16 {
        SQLT_INT
    }

    open spec fn name() -> Seq<char> {
        "i64"@
    }

    open spec fn option_name() -> Seq<char> {
        "Option<i64>"@
    }

    proof fn lemma_size() {
    }

    proof fn lemma_bits(v: Self) {
        lemma_pow256_8();
        assert(((v as u64) as i64) == v) by (bit_vector);
    }

    fn byte_size() -> (r: usize) {
        8
    }

    fn sql_type() -> (r: u16) {
        SQLT_INT
    }

    fn value_name() -> (r: &'static str) {
        "i64"
    }

    fn option_value_name() -> (r: &'static str) {
        "Option<i64>"
    }

    fn to_bits(&self) -> (r: u64) {
        (#[verifier::truncate] (*self as u64)) as u64
    }

    fn from_bits(b: u64) -> (r: Self) {
        proof {
            lemma_pow256_8();
        }
        #[verifier::truncate] ((b as u64) as i64)
    }
}

impl BatchValue for isize {
    open spec fn bits(self) -> nat {
        (self as usize) as nat
    }

    open spec fn from_bits_spec(b: nat) -> Self {
        (b as usize) as isize
    }

    open spec fn size() -> nat {
        (usize::BITS / 8) as nat
    }

    open spec fn spec_sql_type() -> u16 {
        SQLT_INT
    }

    open spec fn name() -> Seq<char> {
        "isize"@
    }

    open spec fn option_name() -> Seq<char> {
        "Option<isize>"@
    }

    proof fn lemma_size() {
        assert(usize::BITS == 32 || usize::BITS == 64);
    }

    proof fn lemma_bits(v: Self) {
        lemma_pow256_8();
        assert(usize::BITS == 32 || usize::BITS == 64);
        assert(((v as usize) as isize) == v) by (bit_vector);
    }

    fn byte_size() -> (r: usize) {
        (usize::BITS / 8) as usize
    }

    fn sql_type() -> (r: u16) {
        SQLT_INT
    }

    fn value_name() -> (r: &'static str) {
        "isize"
    }

    fn option_value_name() -> (r: &'static str) {
        "Option<isize>"
    }

    fn to_bits(&self) -> (r: u64) {
        (#[verifier::truncate] (*self as usize)) as u64
    }

    fn from_bits(b: u64) -> (r: Self) {
        proof {
            lemma_pow256_8();
        assert(usize::BITS == 32 || usize::BITS == 64);
        }
        #[verifier::truncate] ((b as usize) as isize)
    }
}

impl BatchValue for u8 {
    open spec fn bits(self) -> nat {
        self as nat
    }

    open spec fn from_bits_spec(b: nat) -> Self {
        b as u8
    }

    open spec fn size() -> nat {
        1
    }

    open spec fn spec_sql_type() -> u16 {
        SQLT_UIN
    }

    open spec fn name() -> Seq<char> {
        "u8"@
    }

    open spec fn option_name() -> Seq<char> {
        "Option<u8>"@
    }

    proof fn lemma_size() {
    }

    proof fn lemma_bits(v: Self) {
        lemma_pow256_8();
    }

    fn byte_size() -> (r: usize) {
        1
    }

    fn sql_type() -> (r: u16) {
        SQLT_UIN
    }

    fn value_name() -> (r: &'static str) {
        "u8"
    }

    fn option_value_name() -> (r: &'static str) {
        "Option<u8>"
    }

    fn to_bits(&self) -> (r: u64) {
        *self as u64
    }

    fn from_bits(b: u64) -> (r: Self) {
        proof {
            lemma_pow256_8();
        }
        b as u8
    }
}

impl BatchValue for u16 {
    open spec fn bits(self) -> nat {
        self as nat
    }

    open spec fn from_bits_spec(b: nat) -> Self {
        b as u16
    }

    open spec fn size() -> nat {
        2
    }

    open spec fn spec_sql_type() -> u16 {
        SQLT_UIN
    }

    open spec fn name() -> Seq<char> {
        "u16"@
    }

    open spec fn option_name() -> Seq<char> {
        "Option<u16>"@
    }

    proof fn lemma_size() {
    }

    proof fn lemma_bits(v: Self) {
        lemma_pow256_8();
    }

    fn byte_size() -> (r: usize) {
        2
    }

    fn sql_type() -> (r: u16) {
        SQLT_UIN
    }

    fn value_name() -> (r: &'static str) {
        "u16"
    }

    fn option_value_name() -> (r: &'static str) {
        "Option<u16>"
    }

    fn to_bits(&self) -> (r: u64) {
        *self as u64
    }

    fn from_bits(b: u64) -> (r: Self) {
        proof {
            lemma_pow256_8();
        }
        b as u16
    }
}

impl BatchValue for u32 {
    open spec fn bits(self) -> nat {
        self as nat
    }

    open spec fn from_bits_spec(b: nat) -> Self {
        b as u32
    }

    open spec fn size() -> nat {
        4
    }

    open spec fn spec_sql_type() -> u16 {
        SQLT_UIN
    }

    open spec fn name() -> Seq<char> {
        "u32"@
    }

    open spec fn option_name() -> Seq<char> {
        "Option<u32>"@
    }

    proof fn lemma_size() {
    }

    proof fn lemma_bits(v: Self) {
        lemma_pow256_8();
    }

    fn byte_size() -> (r: usize) {
        4
    }

    fn sql_type() -> (r: u16) {
        SQLT_UIN
    }

    fn value_name() -> (r: &'static str) {
        "u32"
    }

    fn option_value_name() -> (r: &'static str) {
        "Option<u32>"
    }

    fn to_bits(&self) -> (r: u64) {
        *self as u64
    }

    fn from_bits(b: u64) -> (r: Self) {
        proof {
            lemma_pow256_8();
        }
        b as u32
    }
}

impl BatchValue for u64 {
    open spec fn bits(self) -> nat {
        self as nat
    }

    open spec fn from_bits_spec(b: nat) -> Self {
        b as u64
    }

    open spec fn size() -> nat {
        8
    }

    open spec fn spec_sql_type() -> u16 {
        SQLT_UIN
    }

    open spec fn name() -> Seq<char> {
        "u64"@
    }

    open spec fn option_name() -> Seq<char> {
        "Option<u64>"@
    }

    proof fn lemma_size() {
    }

    proof fn lemma_bits(v: Self) {
        lemma_pow256_8();
    }

    fn byte_size() -> (r: usize) {
        8
    }

    fn sql_type() -> (r: u16) {
        SQLT_UIN
    }

    fn value_name() -> (r: &'static str) {
        "u64"
    }

    fn option_value_name() -> (r: &'static str) {
        "Option<u64>"
    }

    fn to_bits(&self) -> (r: u64) {
        *self as u64
    }

    fn from_bits(b: u64) -> (r: Self) {
        proof {
            lemma_pow256_8();
        }
        b as u64
    }
}

impl BatchValue for usize {
    open spec fn bits(self) -> nat {
        self as nat
    }

    open spec fn from_bits_spec(b: nat) -> Self {
        b as usize
    }

    open spec fn size() -> nat {
        (usize::BITS / 8) as nat
    }

    open spec fn spec_sql_type() -> u16 {
        SQLT_UIN
    }

    open spec fn name() -> Seq<char> {
        "usize"@
    }

    open spec fn option_name() -> Seq<char> {
        "Option<usize>"@
    }

    proof fn lemma_size() {
        assert(usize::BITS == 32 || usize::BITS == 64);
    }

    proof fn lemma_bits(v: Self) {
        lemma_pow256_8();
        assert(usize::BITS == 32 || usize::BITS == 64);
    }

    fn byte_size() -> (r: usize) {
        (usize::BITS / 8) as usize
    }

    fn sql_type() -> (r: u16) {
        SQLT_UIN
    }

    fn value_name() -> (r: &'static str) {
        "usize"
    }

    fn option_value_name() -> (r: &'static str) {
        "Option<usize>"
    }

    fn to_bits(&self) -> (r: u64) {
        *self as u64
    }

    fn from_bits(b: u64) -> (r: Self) {
        proof {
            lemma_pow256_8();
        assert(usize::BITS == 32 || usize::BITS == 64);
        }
        b as usize
    }
}
} // verus!
