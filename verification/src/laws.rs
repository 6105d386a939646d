use vstd::prelude::*;
use crate::name::stripped_name;
use crate::error::BatchError;
use crate::text_args::{lemma_max_cap, out_stride, text_out_bind, text_out_bound};
use crate::args::ToBatchSql;
use crate::fixed_args::{bits_or_zero, default_rows, fetched_value, value_rows, option_value_rows};
use crate::value::{BatchValue, ordered_bytes, ordered_value, lemma_ordered_round_trip, lemma_pow256_positive};
use crate::pack::{packed_rows, resized, lemma_slot_position, lemma_slot_order};
use crate::params::{
    BatchParamsView, bind_call, bind_info_map, lookup_placeholder, max_row_len, option_lens, option_nulls,
    option_rows, text_bound, text_lens, text_nulls, text_stride, uniform, OCI_IND_NOTNULL,
    OCI_IND_NULL,
};

verus! {

/// No row is longer than the longest row.
pub proof fn lemma_max_row_len(rows: Seq<Seq<u8>>, k: int)
    requires
        0 <= k < rows.len(),
    ensures
        rows[k].len() <= max_row_len(rows),
    decreases rows.len(),
{
    if k < rows.len() - 1 {
        lemma_max_row_len(rows.drop_last(), k);
    }
}

/// A byte of a packed slot, read back.
proof fn lemma_packed_byte(base: Seq<u8>, rows: Seq<Seq<u8>>, stride: nat, i: int, j: int)
    requires
        0 <= i < rows.len(),
        0 <= j < rows[i].len(),
        rows[i].len() <= stride,
        i * stride + j < base.len(),
    ensures
        packed_rows(base, rows, stride)[i * stride + j] == rows[i][j],
{
    lemma_slot_position(i, j, stride as int);
}

/// Binding one placeholder leaves what is read back from every other
/// placeholder as it was: its NULL indicators, data lengths, text and
/// fixed-size values.
pub proof fn law_bind_keeps_other_placeholders(
    pre: BatchParamsView,
    idx: usize,
    buf: Seq<u8>,
    nulls: Seq<i16>,
    lens: Seq<u32>,
    sql_type: u16,
    element_size: usize,
    other: int,
    row: int,
    size: nat,
)
    requires
        pre.consistent(),
        idx < pre.count(),
        0 <= other < pre.count(),
        other != idx,
    ensures
        ({
            let post = pre.with_arrays(idx as int, buf, nulls, lens).after_bind(idx, sql_type, element_size);
            &&& post.null_at(other, row) == pre.null_at(other, row)
            &&& post.data_len_at(other, row) == pre.data_len_at(other, row)
            &&& post.str_data_at(other, row) == pre.str_data_at(other, row)
            &&& post.fixed_data_at(other, row, size) == pre.fixed_data_at(other, row, size)
        }),
{
}

/// Text read back after binding text rows at `idx` is what was bound: each
/// row holds its bytes, and is NULL exactly when it is empty; the rows past
/// the bound ones hold no bytes and are not NULL.
pub proof fn law_text_round_trip(pre: BatchParamsView, idx: usize, rows: Seq<Seq<u8>>, i: int)
    requires
        pre.consistent(),
        idx < pre.count(),
        rows.len() <= pre.batch_size,
        forall|k: int| 0 <= k < rows.len() ==> (#[trigger] rows[k]).len() <= u32::MAX,
        text_stride(rows) * pre.batch_size <= usize::MAX,
        0 <= i < pre.batch_size,
    ensures
        text_bound(pre, idx, rows).str_data_at(idx as int, i) == Some(
            if i < rows.len() {
                rows[i]
            } else {
                Seq::<u8>::empty()
            },
        ),
        text_bound(pre, idx, rows).null_at(idx as int, i) == (i < rows.len() && rows[i].len() == 0),
{
    let post = text_bound(pre, idx, rows);
    let s = text_stride(rows);
    let bs = pre.batch_size as nat;
    let base = resized(pre.buffers[idx as int], s * bs);
    let buf = packed_rows(base, rows, s);
    let want = if i < rows.len() { rows[i] } else { Seq::<u8>::empty() };
    assert(post.buffers[idx as int] == buf);
    assert(s >= 1);
    assert(s <= usize::MAX) by (nonlinear_arith)
        requires
            s * bs <= usize::MAX,
            0 <= i < bs,
            s >= 1,
    ;
    assert(post.stride_of(idx as int) == s);
    if i < rows.len() {
        lemma_max_row_len(rows, i);
    }
    assert(want.len() <= s);
    assert(post.data_len_at(idx as int, i) == want.len());
    assert(buf.len() == s * bs);
    assert(i * s + want.len() <= s * bs) by (nonlinear_arith)
        requires
            0 <= i < bs,
            want.len() <= s,
    ;
    let got = buf.subrange(i * s, i * s + want.len());
    assert forall|j: int| 0 <= j < want.len() implies got[j] == want[j] by {
        lemma_packed_byte(base, rows, s, i, j);
    }
    assert(got =~= want);
    assert(post.slot_bytes(idx as int, i, want.len()) == Some(got));
}

/// Fixed-size values read back after binding an array of them at `idx` are
/// the values bound: row `i` holds bytes `i * size` up to `(i + 1) * size`
/// of the data, and no row is NULL.
pub proof fn law_fixed_round_trip(pre: BatchParamsView, idx: usize, sql_type: u16, data: Seq<u8>, size: usize, i: int)
    requires
        pre.consistent(),
        idx < pre.count(),
        1 <= size,
        size * pre.batch_size <= data.len(),
        0 <= i < pre.batch_size,
    ensures
        ({
            let bs = pre.batch_size;
            let post = pre.with_arrays(
                idx as int,
                data.take(size * bs),
                uniform(bs as nat, OCI_IND_NOTNULL),
                uniform(bs as nat, size as u32),
            ).after_bind(idx, sql_type, size);
            &&& post.fixed_data_at(idx as int, i, size as nat) == Some(data.subrange(i * size, i * size + size))
            &&& !post.null_at(idx as int, i)
        }),
{
    let bs = pre.batch_size;
    assert(i * size + size <= size * bs) by (nonlinear_arith)
        requires
            0 <= i < bs,
            1 <= size,
    ;
    assert(0 <= i * size) by (nonlinear_arith)
        requires
            0 <= i,
            1 <= size,
    ;
    let b = data.take(size * bs);
    assert(b.subrange(i * size, i * size + size) =~= data.subrange(i * size, i * size + size));
}

/// Optional fixed-size values read back after binding them at `idx` are the
/// values bound: a row with a value holds its bytes and is not NULL, a
/// `None` row and every row past the given ones is NULL.
pub proof fn law_option_round_trip(
    pre: BatchParamsView,
    idx: usize,
    sql_type: u16,
    values: Seq<Option<Seq<u8>>>,
    size: usize,
    i: int,
)
    requires
        pre.consistent(),
        idx < pre.count(),
        1 <= size,
        values.len() <= pre.batch_size,
        size * pre.batch_size <= usize::MAX,
        forall|k: int| 0 <= k < values.len() && (#[trigger] values[k]) is Some ==> values[k]->0.len() == size,
        0 <= i < pre.batch_size,
    ensures
        ({
            let bs = pre.batch_size;
            let post = pre.with_arrays(
                idx as int,
                packed_rows(resized(pre.buffers[idx as int], (size * bs) as nat), option_rows(values), size as nat),
                option_nulls(values, bs as nat),
                option_lens(values, bs as nat, size),
            ).after_bind(idx, sql_type, size);
            &&& post.null_at(idx as int, i) == !(i < values.len() && values[i] is Some)
            &&& (i < values.len() && values[i] is Some) ==> post.fixed_data_at(idx as int, i, size as nat) == Some(values[i]->0)
        }),
{
    let bs = pre.batch_size;
    let rows = option_rows(values);
    let base = resized(pre.buffers[idx as int], (size * bs) as nat);
    if i < values.len() && values[i] is Some {
        let v = values[i]->0;
        assert(rows[i] == v);
        assert(i * size + size <= size * bs) by (nonlinear_arith)
            requires
                0 <= i < bs,
                1 <= size,
        ;
        let got = packed_rows(base, rows, size as nat).subrange(i * size, i * size + size);
        assert forall|j: int| 0 <= j < size implies got[j] == v[j] by {
            lemma_packed_byte(base, rows, size as nat, i, j);
        }
        assert(got =~= v);
    }
}

/// A leading colon does not change which placeholder a name finds.
pub proof fn law_colon_is_ignored(placeholders: Map<Seq<char>, usize>, name: Seq<char>)
    requires
        !(name.len() > 0 && name[0] == ':'),
    ensures
        lookup_placeholder(placeholders, seq![':'] + name) == lookup_placeholder(placeholders, name),
{
    assert((seq![':'] + name).drop_first() =~= name);
    assert(stripped_name(seq![':'] + name) == name);
}

/// The placeholders of a statement are the names of its binds that are not
/// duplicates, each at the index of its last such bind.
pub proof fn law_bind_info_map(names: Seq<Seq<char>>, dups: Seq<u8>, k: int, n: Seq<char>)
    requires
        0 <= k <= names.len(),
        names.len() == dups.len(),
        k <= usize::MAX,
    ensures
        bind_info_map(names, dups, k).contains_key(n) <==> exists|i: int| 0 <= i < k && dups[i] == 0 && #[trigger] names[i] == n,
        bind_info_map(names, dups, k).contains_key(n) ==> {
            let m = bind_info_map(names, dups, k)[n] as int;
            &&& 0 <= m < k
            &&& dups[m] == 0 && names[m] == n
            &&& forall|i: int| m < i < k && dups[i] == 0 ==> #[trigger] names[i] != n
        },
    decreases k,
{
    if k > 0 {
        law_bind_info_map(names, dups, k - 1, n);
        if dups[k - 1] == 0 && names[k - 1] == n {
            assert(0 <= k - 1 < k && dups[k - 1] == 0 && names[k - 1] == n);
        } else {
            assert forall|i: int| 0 <= i < k && dups[i] == 0 && #[trigger] names[i] == n implies i < k - 1 by {
            }
        }
    }
}


/// Row `i` of a flattened sequence of rows that all have length `len`.
pub proof fn lemma_flatten_uniform(rows: Seq<Seq<u8>>, len: nat, i: int)
    requires
        forall|k: int| 0 <= k < rows.len() ==> (#[trigger] rows[k]).len() == len,
        0 <= i < rows.len(),
    ensures
        rows.flatten().len() == rows.len() * len,
        rows.flatten().subrange(i * len, i * len + len) == rows[i],
    decreases rows.len(),
{
    let rest = rows.drop_first();
    let f = rows.flatten();
    assert(f == rows[0] + rest.flatten());
    if rest.len() > 0 {
        lemma_flatten_uniform(rest, len, if i > 0 { i - 1 } else { 0 });
    } else {
        assert(rest.flatten() =~= Seq::<u8>::empty());
    }
    assert(rows.len() * len == len + rest.len() * len) by (nonlinear_arith)
        requires
            rest.len() == rows.len() - 1,
    ;
    if i == 0 {
        assert(f.subrange(0, len as int) =~= rows[0]);
    } else {
        assert(i * len == len + (i - 1) * len) by (nonlinear_arith);
        assert(0 <= (i - 1) * len && (i - 1) * len + len <= rest.len() * len) by (nonlinear_arith)
            requires
                1 <= i < rows.len(),
                rest.len() == rows.len() - 1,
        ;
        assert(f.subrange(i * len, i * len + len) =~= rest.flatten().subrange((i - 1) * len, (i - 1) * len + len));
    }
}

/// The values read back after binding a slice of fixed-size values are the
/// values bound.
pub proof fn law_values_round_trip<T: BatchValue>(pre: BatchParamsView, pos: usize, vs: Seq<T>, i: int)
    requires
        pre.consistent(),
        pos < pre.count(),
        vs.len() == pre.batch_size,
        0 <= i < vs.len(),
    ensures
        ({
            let bs = pre.batch_size;
            let post = pre.with_arrays(
                pos as int,
                value_rows(vs, pre.little_endian).flatten(),
                uniform(bs as nat, OCI_IND_NOTNULL),
                uniform(bs as nat, T::size() as u32),
            ).after_bind(pos, T::spec_sql_type(), T::size() as usize);
            fetched_value::<T>(post, pos, i) == Some(vs[i])
        }),
{
    let bs = pre.batch_size;
    let little = pre.little_endian;
    let rows = value_rows(vs, little);
    let size = T::size();
    T::lemma_size();
    assert forall|k: int| 0 <= k < rows.len() implies (#[trigger] rows[k]).len() == size by {
        T::lemma_bits(vs[k]);
        lemma_ordered_round_trip(vs[k].bits(), size, little);
    }
    lemma_flatten_uniform(rows, size, i);
    let post = pre.with_arrays(
        pos as int,
        rows.flatten(),
        uniform(bs as nat, OCI_IND_NOTNULL),
        uniform(bs as nat, size as u32),
    ).after_bind(pos, T::spec_sql_type(), size as usize);
    assert(post.stride_of(pos as int) == size);
    assert(!post.null_at(pos as int, i));
    assert(i * size + size <= bs * size) by (nonlinear_arith)
        requires
            0 <= i < bs,
    ;
    assert(0 <= i * size) by (nonlinear_arith)
        requires
            0 <= i,
    ;
    assert(post.fixed_data_at(pos as int, i, size) == Some(rows[i]));
    T::lemma_bits(vs[i]);
    lemma_ordered_round_trip(vs[i].bits(), size, little);
}

/// The optional values read back after binding a slice of them are the
/// values bound: `None` comes back as `None`.
pub proof fn law_option_values_round_trip<T: BatchValue>(pre: BatchParamsView, pos: usize, vs: Seq<Option<T>>, i: int)
    requires
        pre.consistent(),
        pos < pre.count(),
        vs.len() == pre.batch_size,
        T::size() * pre.batch_size <= usize::MAX,
        0 <= i < vs.len(),
    ensures
        ({
            let bs = pre.batch_size;
            let vals = option_value_rows(vs, pre.little_endian);
            let post = pre.with_arrays(
                pos as int,
                packed_rows(resized(pre.buffers[pos as int], (T::size() * bs) as nat), option_rows(vals), T::size()),
                option_nulls(vals, bs as nat),
                option_lens(vals, bs as nat, T::size() as usize),
            ).after_bind(pos, T::spec_sql_type(), T::size() as usize);
            fetched_value::<T>(post, pos, i) == vs[i]
        }),
{
    let little = pre.little_endian;
    let vals = option_value_rows(vs, little);
    let size = T::size();
    T::lemma_size();
    assert forall|k: int| 0 <= k < vals.len() && (#[trigger] vals[k]) is Some implies vals[k]->0.len() == size by {
        T::lemma_bits(vs[k]->0);
        lemma_ordered_round_trip(vs[k]->0.bits(), size, little);
    }
    law_option_round_trip(pre, pos, T::spec_sql_type(), vals, size as usize, i);
    if vs[i] is Some {
        T::lemma_bits(vs[i]->0);
        lemma_ordered_round_trip(vs[i]->0.bits(), size, little);
    }
}

/// A value's bytes, read back in the same byte order, give the value.
pub proof fn law_value_codec<T: BatchValue>(v: T, little: bool)
    ensures
        ordered_bytes(v.bits(), T::size(), little).len() == T::size(),
        T::from_bits_spec(ordered_value(ordered_bytes(v.bits(), T::size(), little), little)) == v,
{
    T::lemma_bits(v);
    lemma_ordered_round_trip(v.bits(), T::size(), little);
}

/// After fixed-size OUT values have been bound, every row is NULL, so
/// nothing is read back from the parameters until the client writes a row.
pub proof fn law_out_bind_reads_nothing<T: BatchValue>(pre: BatchParamsView, pos: usize, i: int)
    requires
        pre.consistent(),
        pos < pre.count(),
        0 <= i,
    ensures
        ({
            let bs = pre.batch_size;
            let post = pre.with_arrays(
                pos as int,
                pre.buffers[pos as int],
                uniform(bs as nat, OCI_IND_NULL),
                uniform(bs as nat, T::size() as u32),
            ).after_bind_into(pos, T::spec_sql_type(), T::size() as usize, true);
            &&& post.null_at(pos as int, i)
            &&& fetched_value::<T>(post, pos, i) is None
        }),
{
}

/// A row that the client has written for an OUT argument, not NULL and
/// holding a value's bytes in its slot, is read back as that value.
pub proof fn law_fetch_reads_written_value<T: BatchValue>(params: BatchParamsView, pos: usize, i: int, v: T)
    requires
        !params.null_at(pos as int, i),
        params.fixed_data_at(pos as int, i, T::size()) == Some(ordered_bytes(v.bits(), T::size(), params.little_endian)),
    ensures
        fetched_value::<T>(params, pos, i) == Some(v),
{
    law_value_codec(v, params.little_endian);
}

/// Binding OUT strings with at most one row fails only where a capacity is
/// beyond the client's 32-bit lengths; with no strings at all it succeeds
/// and every slot is 256 bytes.  `exists caps. text_out_bind(..)` is what
/// `bind_ok` of a `&mut [String]` of the batch size says at a position that
/// has a placeholder.
pub proof fn law_out_text_bind_succeeds_small(ss: Seq<String>, pos: usize, pre: BatchParamsView, post: BatchParamsView, r: Result<usize, BatchError>)
    requires
        exists|caps: Seq<usize>| #[trigger] text_out_bind(pre, pos, ss, caps, post, r),
        ss.len() == pre.batch_size,
        pos < pre.count(),
        pre.batch_size <= 1,
    ensures
        r is Err ==> r matches Err(BatchError::BufferTooLarge { .. }),
        ss.len() == 0 ==> r == Ok::<usize, BatchError>((pos + 1) as usize) && post == text_out_bound(pre, pos, 256),
{
    let caps = choose|caps: Seq<usize>| #[trigger] text_out_bind(pre, pos, ss, caps, post, r);
    lemma_max_cap(caps);
    assert(out_stride(caps) <= usize::MAX);
    assert(out_stride(caps) * pre.batch_size <= out_stride(caps)) by (nonlinear_arith)
        requires
            pre.batch_size <= 1,
    ;
}

/// One step that a call on a `BatchParams` takes: the arrays of one
/// placeholder replaced (every bind and `swap_arrays`), or a bind of one
/// placeholder recorded (every bind); a getter takes none.
pub open spec fn bind_step(a: BatchParamsView, b: BatchParamsView) -> bool {
    ||| exists|idx: int, buf: Seq<u8>, nulls: Seq<i16>, lens: Seq<u32>|
        0 <= idx < a.count() && b == #[trigger] a.with_arrays(idx, buf, nulls, lens)
    ||| exists|idx: usize, sql_type: u16, element_size: usize, caller_storage: bool|
        idx < a.count() && b == #[trigger] a.after_bind_into(idx, sql_type, element_size, caller_storage)
}

/// A single step keeps the arrays consistent and the placeholders, their
/// number and the batch size as they were.
pub proof fn lemma_bind_step(a: BatchParamsView, b: BatchParamsView)
    requires
        a.consistent(),
        bind_step(a, b),
    ensures
        b.consistent(),
        b.count() == a.count(),
        b.batch_size == a.batch_size,
        b.placeholders == a.placeholders,
{
}

/// Over any sequence of binds on parameters made by `new`, the arrays stay
/// one per placeholder, every placeholder index stays in range, and the
/// placeholders, their number and the batch size stay what `new` made.
pub proof fn law_binds_keep_frame(states: Seq<BatchParamsView>, k: int)
    requires
        states.len() >= 1,
        states[0].consistent(),
        forall|j: int| 0 <= j < states.len() - 1 ==> bind_step(#[trigger] states[j], states[j + 1]),
        0 <= k < states.len(),
    ensures
        states[k].consistent(),
        states[k].count() == states[0].count(),
        states[k].batch_size == states[0].batch_size,
        states[k].placeholders == states[0].placeholders,
    decreases k,
{
    if k > 0 {
        law_binds_keep_frame(states, k - 1);
        lemma_bind_step(states[k - 1], states[k]);
    }
}

/// Binding a slice of fixed-size values of the batch's length at a
/// position that has a placeholder succeeds, and every row reads back as
/// its value, not NULL, with the values' size as its length.
pub proof fn law_slice_bind_round_trip<'a, T: BatchValue>(
    x: &'a [T],
    pos: usize,
    pre: BatchParamsView,
    post: BatchParamsView,
    r: Result<usize, BatchError>,
    i: int,
)
    requires
        ToBatchSql::bind_ok(&x, pos, pre, post, r),
        pre.consistent(),
        x@.len() == pre.batch_size,
        pos < pre.count(),
        0 <= i < x@.len(),
    ensures
        r == Ok::<usize, BatchError>((pos + 1) as usize),
        fetched_value::<T>(post, pos, i) == Some(x@[i]),
        !post.null_at(pos as int, i),
        post.data_len_at(pos as int, i) == T::size(),
{
    T::lemma_size();
    law_values_round_trip(pre, pos, x@, i);
}

/// A named argument binds at its placeholder whatever position it is
/// given: it binds as its inner argument does at the placeholder's index.
pub proof fn law_named_ignores_position<'b, T: ToBatchSql>(
    arg: (&'b str, T),
    pos1: usize,
    pos2: usize,
    pre: BatchParamsView,
    post: BatchParamsView,
    r: Result<usize, BatchError>,
)
    requires
        lookup_placeholder(pre.placeholders, arg.0@) is Some,
    ensures
        arg.bind_ok(pos1, pre, post, r) == arg.bind_ok(pos2, pre, post, r),
        arg.bind_ok(pos1, pre, post, r) == arg.1.bind_ok(lookup_placeholder(pre.placeholders, arg.0@)->0, pre, post, r),
{
}

/// Three slices of the batch's length bind left to right at `pos`,
/// `pos + 1` and `pos + 2`, and give back `pos + 3`.
pub proof fn law_three_slices_bind_in_order<'a, T1: BatchValue, T2: BatchValue, T3: BatchValue>(
    args: (&'a [T1], &'a [T2], &'a [T3]),
    pos: usize,
    pre: BatchParamsView,
    post: BatchParamsView,
    r: Result<usize, BatchError>,
)
    requires
        args.bind_ok(pos, pre, post, r),
        args.0@.len() == pre.batch_size,
        args.1@.len() == pre.batch_size,
        args.2@.len() == pre.batch_size,
        pos + 3 <= pre.count(),
        pos + 3 <= usize::MAX,
    ensures
        r == Ok::<usize, BatchError>((pos + 3) as usize),
        post.calls.len() == pre.calls.len() + 3,
        post.calls[pre.calls.len() as int].idx == pos,
        post.calls[pre.calls.len() + 1int].idx == pos + 1,
        post.calls[pre.calls.len() + 2int].idx == pos + 2,
{
    let (m1, q1) = choose|m1: BatchParamsView, q1: Result<usize, BatchError>|
        #[trigger] args.0.bind_ok(pos, pre, m1, q1) && match q1 {
            Err(_) => post == m1 && r == q1,
            Ok(p1) => exists|m2: BatchParamsView, q2: Result<usize, BatchError>|
                #[trigger] args.1.bind_ok(p1, m1, m2, q2) && match q2 {
                    Err(_) => post == m2 && r == q2,
                    Ok(p2) => args.2.bind_ok(p2, m2, post, r),
                },
        };
    assert(q1 == Ok::<usize, BatchError>((pos + 1) as usize));
    assert(m1.count() == pre.count() && m1.batch_size == pre.batch_size);
    assert(m1.calls == pre.calls.push(bind_call(pos, T1::spec_sql_type(), T1::size() as usize)));
    let p1 = (pos + 1) as usize;
    let (m2, q2) = choose|m2: BatchParamsView, q2: Result<usize, BatchError>|
        #[trigger] args.1.bind_ok(p1, m1, m2, q2) && match q2 {
            Err(_) => post == m2 && r == q2,
            Ok(p2) => args.2.bind_ok(p2, m2, post, r),
        };
    assert(q2 == Ok::<usize, BatchError>((pos + 2) as usize));
    assert(m2.count() == pre.count() && m2.batch_size == pre.batch_size);
    assert(m2.calls == m1.calls.push(bind_call(p1, T2::spec_sql_type(), T2::size() as usize)));
    assert(post.calls == m2.calls.push(bind_call((pos + 2) as usize, T3::spec_sql_type(), T3::size() as usize)));
}

/// A tuple of arguments stops at the first one that refuses: if the first
/// argument refuses, the tuple gives its error and its state.
pub proof fn law_tuple_stops_at_first_refusal<A: ToBatchSql, B: ToBatchSql, C: ToBatchSql>(
    args: (A, B, C),
    pos: usize,
    pre: BatchParamsView,
    post: BatchParamsView,
    r: Result<usize, BatchError>,
)
    requires
        args.bind_ok(pos, pre, post, r),
    ensures
        exists|mid: BatchParamsView, q: Result<usize, BatchError>|
            #[trigger] args.0.bind_ok(pos, pre, mid, q) && (q is Err ==> post == mid && r == q),
{
}

/// After binding optional OUT values, every row is NULL and holds the
/// bytes of its value, or of the default value 0 for `None`.
pub proof fn law_option_out_defaults<T: BatchValue>(pre: BatchParamsView, pos: usize, vs: Seq<Option<T>>, i: int)
    requires
        pre.consistent(),
        pos < pre.count(),
        vs.len() == pre.batch_size,
        0 <= i < vs.len(),
    ensures
        ({
            let bs = pre.batch_size;
            let post = pre.with_arrays(
                pos as int,
                default_rows(vs, pre.little_endian).flatten(),
                uniform(bs as nat, OCI_IND_NULL),
                uniform(bs as nat, T::size() as u32),
            ).after_bind(pos, T::spec_sql_type(), T::size() as usize);
            &&& post.null_at(pos as int, i)
            &&& post.fixed_data_at(pos as int, i, T::size()) == Some(ordered_bytes(bits_or_zero(vs[i]), T::size(), pre.little_endian))
            &&& ordered_value(post.fixed_data_at(pos as int, i, T::size())->0, pre.little_endian) == bits_or_zero(vs[i])
        }),
{
    let bs = pre.batch_size;
    let little = pre.little_endian;
    let rows = default_rows(vs, little);
    let size = T::size();
    T::lemma_size();
    lemma_pow256_positive(size);
    assert forall|k: int| 0 <= k < rows.len() implies (#[trigger] rows[k]).len() == size by {
        if vs[k] is Some {
            T::lemma_bits(vs[k]->0);
        }
        lemma_ordered_round_trip(bits_or_zero(vs[k]), size, little);
    }
    if vs[i] is Some {
        T::lemma_bits(vs[i]->0);
    }
    lemma_ordered_round_trip(bits_or_zero(vs[i]), size, little);
    lemma_flatten_uniform(rows, size, i);
    let post = pre.with_arrays(
        pos as int,
        rows.flatten(),
        uniform(bs as nat, OCI_IND_NULL),
        uniform(bs as nat, size as u32),
    ).after_bind(pos, T::spec_sql_type(), size as usize);
    assert(post.stride_of(pos as int) == size);
    assert(i * size + size <= bs * size) by (nonlinear_arith)
        requires
            0 <= i < bs,
    ;
    assert(0 <= i * size) by (nonlinear_arith)
        requires
            0 <= i,
    ;
    assert(post.fixed_data_at(pos as int, i, size) == Some(rows[i]));
}

/// A tuple whose second argument refuses keeps the bind of the first one
/// and makes no other: with three slices where only the second has the
/// wrong length, the result is the second one's error and the parameters
/// are exactly as the first bind left them.
pub proof fn law_tuple_keeps_binds_before_a_refusal<'a, T1: BatchValue, T2: BatchValue, T3: BatchValue>(
    args: (&'a [T1], &'a [T2], &'a [T3]),
    pos: usize,
    pre: BatchParamsView,
    post: BatchParamsView,
    r: Result<usize, BatchError>,
)
    requires
        args.bind_ok(pos, pre, post, r),
        args.0@.len() == pre.batch_size,
        args.1@.len() != pre.batch_size,
        pos < pre.count(),
        pos + 1 <= usize::MAX,
    ensures
        r matches Err(BatchError::LengthMismatch { param, len, batch_size })
            && param@ == T2::name() && len == args.1@.len() && batch_size == pre.batch_size,
        post == pre.with_arrays(
            pos as int,
            value_rows(args.0@, pre.little_endian).flatten(),
            uniform(pre.batch_size as nat, OCI_IND_NOTNULL),
            uniform(pre.batch_size as nat, T1::size() as u32),
        ).after_bind(pos, T1::spec_sql_type(), T1::size() as usize),
{
    let (m1, q1) = choose|m1: BatchParamsView, q1: Result<usize, BatchError>|
        #[trigger] args.0.bind_ok(pos, pre, m1, q1) && match q1 {
            Err(_) => post == m1 && r == q1,
            Ok(p1) => exists|m2: BatchParamsView, q2: Result<usize, BatchError>|
                #[trigger] args.1.bind_ok(p1, m1, m2, q2) && match q2 {
                    Err(_) => post == m2 && r == q2,
                    Ok(p2) => args.2.bind_ok(p2, m2, post, r),
                },
        };
    assert(q1 == Ok::<usize, BatchError>((pos + 1) as usize));
    assert(m1.batch_size == pre.batch_size);
    let p1 = (pos + 1) as usize;
    let (m2, q2) = choose|m2: BatchParamsView, q2: Result<usize, BatchError>|
        #[trigger] args.1.bind_ok(p1, m1, m2, q2) && match q2 {
            Err(_) => post == m2 && r == q2,
            Ok(p2) => args.2.bind_ok(p2, m2, post, r),
        };
    assert(q2 is Err && m2 == m1);
}

} // verus!
