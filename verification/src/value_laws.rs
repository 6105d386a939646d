use vstd::prelude::*;
use vstd::layout::size_of;
use crate::args::ToBatchSql;
use crate::error::BatchError;
use crate::params::{BatchParamsView, SQLT_INT, SQLT_UIN};
use crate::value::{le_bytes, ordered_bytes, BatchValue};
use crate::params::BatchParams;
use crate::name::upper_name;
use vstd::utf8::is_ascii_chars;

verus! {

/// Binding a slice records one bind call, carrying the external type and
/// the size of the slice's element type.
pub proof fn law_slice_bind_records_its_type<'a, T: BatchValue>(
    args: &'a [T],
    pos: usize,
    pre: BatchParamsView,
    post: BatchParamsView,
    r: Result<usize, BatchError>,
)
    requires
        args.bind_ok(pos, pre, post, r),
        r is Ok,
    ensures
        post.calls.len() == pre.calls.len() + 1,
        post.calls.last().idx == pos,
        post.calls.last().sql_type == T::spec_sql_type(),
        post.calls.last().element_size == T::size(),
        !post.calls.last().caller_storage,
{
    T::lemma_size();
}

/// Signed integers are bound as signed integers: every signed element type
/// has the external type `SQLT_INT`, so the database reads negative values
/// as negative.
pub proof fn law_signed_types_bind_as_signed()
    ensures
        <i8 as BatchValue>::spec_sql_type() == SQLT_INT,
        <i16 as BatchValue>::spec_sql_type() == SQLT_INT,
        <i32 as BatchValue>::spec_sql_type() == SQLT_INT,
        <i64 as BatchValue>::spec_sql_type() == SQLT_INT,
        <isize as BatchValue>::spec_sql_type() == SQLT_INT,
{
}

/// Unsigned integers are bound as unsigned integers: every unsigned element
/// type has the external type `SQLT_UIN`.
pub proof fn law_unsigned_types_bind_as_unsigned()
    ensures
        <u8 as BatchValue>::spec_sql_type() == SQLT_UIN,
        <u16 as BatchValue>::spec_sql_type() == SQLT_UIN,
        <u32 as BatchValue>::spec_sql_type() == SQLT_UIN,
        <u64 as BatchValue>::spec_sql_type() == SQLT_UIN,
        <usize as BatchValue>::spec_sql_type() == SQLT_UIN,
{
}

/// A value takes as many bytes as the type does in memory.
pub proof fn law_value_sizes_are_type_sizes()
    ensures
        <i8 as BatchValue>::size() == size_of::<i8>(),
        <i16 as BatchValue>::size() == size_of::<i16>(),
        <i32 as BatchValue>::size() == size_of::<i32>(),
        <i64 as BatchValue>::size() == size_of::<i64>(),
        <isize as BatchValue>::size() == size_of::<isize>(),
        <u8 as BatchValue>::size() == size_of::<u8>(),
        <u16 as BatchValue>::size() == size_of::<u16>(),
        <u32 as BatchValue>::size() == size_of::<u32>(),
        <u64 as BatchValue>::size() == size_of::<u64>(),
        <usize as BatchValue>::size() == size_of::<usize>(),
{
    broadcast use vstd::layout::layout_of_primitives;
}

/// An unsigned value is represented by the number itself: the bytes bound
/// for it are those of its value.
pub proof fn law_unsigned_values_are_their_own_bits(a: u8, b: u16, c: u32, d: u64, e: usize)
    ensures
        a.bits() == a as int,
        b.bits() == b as int,
        c.bits() == c as int,
        d.bits() == d as int,
        e.bits() == e as int,
{
}

/// A signed value is represented in two's complement: a non-negative value
/// by itself, a negative one by itself plus `2^(8 * size)`.
pub proof fn law_signed_values_are_twos_complement(a: i8, b: i16, c: i32, d: i64, e: isize)
    ensures
        a.bits() == if a >= 0 { a as int } else { a + 0x100 },
        b.bits() == if b >= 0 { b as int } else { b + 0x1_0000 },
        c.bits() == if c >= 0 { c as int } else { c + 0x1_0000_0000 },
        d.bits() == if d >= 0 { d as int } else { d + 0x1_0000_0000_0000_0000 },
        e.bits() == if e >= 0 { e as int } else { e + usize::MAX + 1 },
{
    assert((a as u8) as int == if a >= 0 { a as int } else { a + 0x100 }) by (bit_vector);
    assert((b as u16) as int == if b >= 0 { b as int } else { b + 0x1_0000 }) by (bit_vector);
    assert((c as u32) as int == if c >= 0 { c as int } else { c + 0x1_0000_0000 }) by (bit_vector);
    assert((d as u64) as int == if d >= 0 { d as int } else { d + 0x1_0000_0000_0000_0000 }) by (bit_vector);
    assert(usize::BITS == 64 ==> (e as usize) as int == if e >= 0 { e as int } else { e + 0x1_0000_0000_0000_0000 })
        by (bit_vector);
    assert(usize::BITS == 32 ==> (e as usize) as int == if e >= 0 { e as int } else { e + 0x1_0000_0000 })
        by (bit_vector);
}

/// Reading a value back from its representation gives the value, for
/// every element type: `from_bits` is the inverse of `bits`.
pub proof fn law_bits_read_back<T: BatchValue>(v: T)
    ensures
        T::from_bits_spec(v.bits()) == v,
{
    T::lemma_bits(v);
}

/// The upper-case form a name of ASCII characters falls back to keeps every
/// character in its place: a lower-case letter becomes its capital (32
/// below it), anything else (capitals, digits, `_`, `$`, `#`) stays.
pub proof fn law_ascii_names_fall_back_to_capitals(s: Seq<char>)
    requires
        is_ascii_chars(s),
    ensures
        upper_name(s).len() == s.len(),
        forall|i: int| 0 <= i < s.len() && 'a' <= s[i] <= 'z' ==> #[trigger] upper_name(s)[i] as u32 + 32 == s[i] as u32,
        forall|i: int| 0 <= i < s.len() && !('a' <= s[i] <= 'z') ==> #[trigger] upper_name(s)[i] == s[i],
{
}

/// Parameters encode numbers in the machine's own byte order: the two bytes
/// written for the `u16` value 1 are the ones in which the machine stores 1,
/// so a bound value's bytes are its bytes in memory.
pub proof fn law_encoding_follows_the_machine(p: &BatchParams)
    requires
        p.wf(),
    ensures
        ordered_bytes(1, 2, p@.little_endian) == seq![p.native_one().0, p.native_one().1],
{
    p.lemma_wf_byte_order();
    reveal_with_fuel(le_bytes, 3);
    assert(le_bytes(1, 2) =~= seq![1u8, 0u8]);
    assert(le_bytes(1, 2).reverse() =~= seq![0u8, 1u8]);
}

} // verus!
