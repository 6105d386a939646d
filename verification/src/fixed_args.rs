use vstd::prelude::*;
use vstd::slice::SliceAdditionalExecFns;
use crate::args::{unchanged_update, ToBatchSql};
use crate::error::BatchError;
use crate::pack::{packed_rows, resized};
use crate::params::{
    option_lens, option_nulls, option_rows, uniform, BatchParams, BatchParamsView, OCI_IND_NOTNULL,
    OCI_IND_NULL,
};
use crate::value::{
    decode_bits, encode_bits, lemma_ordered_round_trip, lemma_ordered_value_bound,
    lemma_pow256_positive, ordered_bytes, ordered_value, pow256, BatchValue,
};

verus! {

/// The memory representation of each value, in the given byte order.
pub open spec fn value_rows<T: BatchValue>(vs: Seq<T>, little: bool) -> Seq<Seq<u8>> {
    vs.map_values(|v: T| ordered_bytes(v.bits(), T::size(), little))
}

/// The bytes of values laid out one after the other.
pub fn value_bytes<T: BatchValue>(vs: &[T], little: bool) -> (r: Vec<u8>)
    ensures
        r@ == value_rows(vs@, little).flatten(),
        r@.len() == vs@.len() * T::size(),
{
    let ghost rows = value_rows(vs@, little);
    let mut r: Vec<u8> = Vec::new();
    let mut i: usize = 0;
    let size = T::byte_size();
    proof {
        assert(rows.take(0) =~= Seq::<Seq<u8>>::empty());
    }
    while i < vs.len()
        invariant
            i <= vs@.len(),
            size == T::size(),
            rows == value_rows(vs@, little),
            r@ == rows.take(i as int).flatten(),
            r@.len() == i * T::size(),
        decreases vs@.len() - i,
    {
        let v = vs[i];
        let mut b = encode_bits(v.to_bits(), size, little);
        proof {
            T::lemma_bits(v);
            lemma_ordered_round_trip(v.bits(), T::size(), little);
            assert(rows.take(i + 1) =~= rows.take(i as int).push(rows[i as int]));
            assert(rows[i as int] == b@);
            rows.take(i as int).lemma_flatten_push(rows[i as int]);
            assert((i + 1) * T::size() == i * T::size() + T::size()) by (nonlinear_arith);
        }
        r.append(&mut b);
        i += 1;
    }
    proof {
        assert(rows.take(vs@.len() as int) =~= rows);
    }
    r
}

impl<'a, T: BatchValue> ToBatchSql for &'a [T] {
    open spec fn width() -> nat {
        1
    }

    proof fn lemma_width() {
    }

    open spec fn bind_ok(&self, pos: usize, pre: BatchParamsView, post: BatchParamsView, r: Result<usize, BatchError>) -> bool {
        let vs = (*self)@;
        if vs.len() != pre.batch_size {
            &&& r matches Err(BatchError::LengthMismatch { param, len, batch_size: b })
            &&& param@ == T::name() && len == vs.len() && b == pre.batch_size
            &&& post == pre
        } else if pos >= pre.count() {
            &&& r matches Err(BatchError::NoSuchPosition { pos: p, count: c })
            &&& p == pos && c == pre.count()
            &&& post == pre
        } else {
            &&& r == Ok::<usize, BatchError>((pos + 1) as usize)
            &&& post == pre.with_arrays(
                pos as int,
                value_rows(vs, pre.little_endian).flatten(),
                uniform(pre.batch_size as nat, OCI_IND_NOTNULL),
                uniform(pre.batch_size as nat, T::size() as u32),
            ).after_bind(pos, T::spec_sql_type(), T::size() as usize)
        }
    }

    open spec fn update_ok(&self, after: Self, pos: usize, batch_size: usize, params: BatchParamsView, r: Result<usize, BatchError>) -> bool {
        unchanged_update(*self, after, pos, r)
    }

    /// Batch-binds a slice of fixed-size values as IN parameters at `pos`.
    fn bind_batch_to(&mut self, pos: usize, batch_size: usize, params: &mut BatchParams) -> (r: Result<usize, BatchError>) {
        params.check_batch_len(self.len(), T::value_name())?;
        let count = params.placeholder_count();
        if pos >= count {
            return Err(BatchError::NoSuchPosition { pos, count });
        }
        let bytes = value_bytes(*self, params.little_endian());
        let size = T::byte_size();
        proof {
            assert(bytes@.len() == size * params@.batch_size) by (nonlinear_arith)
                requires
                    bytes@.len() == (*self)@.len() * T::size(),
                    size == T::size(),
                    (*self)@.len() == params@.batch_size,
            ;
            assert(bytes@.take(bytes@.len() as int) =~= bytes@);
            assert(bytes@.len() == bytes.len());
        }
        proof {
            T::lemma_size();
        }
        params.bind_batch_in_fixed(pos, T::sql_type(), bytes.as_slice(), size);
        Ok(pos + 1)
    }

    /// An IN argument is left as it is.
    fn update_batch_from_bind(&mut self, pos: usize, batch_size: usize, params: &BatchParams) -> (r: Result<usize, BatchError>) {
        Ok(pos + 1)
    }
}


/// The value held in a row's bytes.
fn decode_value<T: BatchValue>(b: &[u8], little: bool) -> (r: T)
    requires
        b@.len() == T::size(),
    ensures
        r == T::from_bits_spec(ordered_value(b@, little)),
{
    proof {
        T::lemma_size();
        lemma_ordered_value_bound(b@, little);
    }
    T::from_bits(decode_bits(b, little))
}

/// What an OUT row holds after execution, if the client gave it a value:
/// the value in its bytes; `None` for a NULL row or a row without bytes.
pub open spec fn fetched_value<T: BatchValue>(params: BatchParamsView, pos: usize, row: int) -> Option<T> {
    if params.null_at(pos as int, row) {
        None
    } else {
        match params.fixed_data_at(pos as int, row, T::size()) {
            Some(b) => Some(T::from_bits_spec(ordered_value(b, params.little_endian))),
            None => None,
        }
    }
}

impl<'a, T: BatchValue> ToBatchSql for &'a mut [T] {
    open spec fn width() -> nat {
        1
    }

    proof fn lemma_width() {
    }

    open spec fn bind_ok(&self, pos: usize, pre: BatchParamsView, post: BatchParamsView, r: Result<usize, BatchError>) -> bool {
        let n = (*self)@.len();
        if n != pre.batch_size {
            &&& r matches Err(BatchError::LengthMismatch { param, len, batch_size: b })
            &&& param@ == T::name() && len == n && b == pre.batch_size
            &&& post == pre
        } else if pos >= pre.count() {
            &&& r matches Err(BatchError::NoSuchPosition { pos: p, count: c })
            &&& p == pos && c == pre.count()
            &&& post == pre
        } else {
            &&& r == Ok::<usize, BatchError>((pos + 1) as usize)
            &&& post == pre.with_arrays(
                pos as int,
                pre.buffers[pos as int],
                uniform(pre.batch_size as nat, OCI_IND_NULL),
                uniform(pre.batch_size as nat, T::size() as u32),
            ).after_bind_into(pos, T::spec_sql_type(), T::size() as usize, true)
        }
    }

    open spec fn update_ok(&self, after: Self, pos: usize, batch_size: usize, params: BatchParamsView, r: Result<usize, BatchError>) -> bool {
        unchanged_update(*self, after, pos, r)
    }

    /// Batch-binds a mutable slice of fixed-size values as OUT parameters at
    /// `pos`: the client writes the rows straight into the slice.
    fn bind_batch_to(&mut self, pos: usize, batch_size: usize, params: &mut BatchParams) -> (r: Result<usize, BatchError>) {
        params.check_batch_len(self.len(), T::value_name())?;
        let count = params.placeholder_count();
        if pos >= count {
            return Err(BatchError::NoSuchPosition { pos, count });
        }
        proof {
            T::lemma_size();
        }
        params.bind_batch_out_fixed(pos, T::sql_type(), T::byte_size());
        Ok(pos + 1)
    }

    /// The client has written the rows into the slice itself: nothing is
    /// left to copy.
    fn update_batch_from_bind(&mut self, pos: usize, batch_size: usize, params: &BatchParams) -> (r: Result<usize, BatchError>) {
        Ok(pos + 1)
    }
}


/// The memory representation of each optional value, `None` for `None`.
pub open spec fn option_value_rows<T: BatchValue>(vs: Seq<Option<T>>, little: bool) -> Seq<Option<Seq<u8>>> {
    vs.map_values(|o: Option<T>| match o {
        Some(v) => Some(ordered_bytes(v.bits(), T::size(), little)),
        None => None,
    })
}

/// The number whose bytes represent an optional value, 0 (the bytes of
/// the default value) for `None`.
pub open spec fn bits_or_zero<T: BatchValue>(o: Option<T>) -> nat {
    match o {
        Some(v) => v.bits(),
        None => 0,
    }
}

/// The memory representation of each optional value, that of 0 for `None`.
pub open spec fn default_rows<T: BatchValue>(vs: Seq<Option<T>>, little: bool) -> Seq<Seq<u8>> {
    vs.map_values(|o: Option<T>| ordered_bytes(bits_or_zero(o), T::size(), little))
}

/// The bytes of optional values laid out one after the other, those of 0
/// for `None`.
pub fn default_bytes<T: BatchValue>(vs: &[Option<T>], little: bool) -> (r: Vec<u8>)
    ensures
        r@ == default_rows(vs@, little).flatten(),
        r@.len() == vs@.len() * T::size(),
{
    let ghost rows = default_rows(vs@, little);
    let mut r: Vec<u8> = Vec::new();
    let mut i: usize = 0;
    let size = T::byte_size();
    proof {
        assert(rows.take(0) =~= Seq::<Seq<u8>>::empty());
        T::lemma_size();
        lemma_pow256_positive(T::size());
    }
    while i < vs.len()
        invariant
            i <= vs@.len(),
            size == T::size(),
            pow256(T::size()) >= 1,
            rows == default_rows(vs@, little),
            r@ == rows.take(i as int).flatten(),
            r@.len() == i * T::size(),
        decreases vs@.len() - i,
    {
        let bits: u64 = match vs[i] {
            Some(v) => v.to_bits(),
            None => 0,
        };
        let mut b = encode_bits(bits, size, little);
        proof {
            match vs@[i as int] {
                Some(v) => T::lemma_bits(v),
                None => {},
            }
            lemma_ordered_round_trip(bits as nat, T::size(), little);
            assert(rows.take(i + 1) =~= rows.take(i as int).push(rows[i as int]));
            assert(rows[i as int] == b@);
            rows.take(i as int).lemma_flatten_push(rows[i as int]);
            assert((i + 1) * T::size() == i * T::size() + T::size()) by (nonlinear_arith);
        }
        r.append(&mut b);
        i += 1;
    }
    proof {
        assert(rows.take(vs@.len() as int) =~= rows);
    }
    r
}

impl<'a, T: BatchValue> ToBatchSql for &'a [Option<T>] {
    open spec fn width() -> nat {
        1
    }

    proof fn lemma_width() {
    }

    open spec fn bind_ok(&self, pos: usize, pre: BatchParamsView, post: BatchParamsView, r: Result<usize, BatchError>) -> bool {
        let vs = (*self)@;
        let vals = option_value_rows(vs, pre.little_endian);
        if vs.len() != pre.batch_size {
            &&& r matches Err(BatchError::LengthMismatch { param, len, batch_size: b })
            &&& param@ == T::option_name() && len == vs.len() && b == pre.batch_size
            &&& post == pre
        } else if pos >= pre.count() {
            &&& r matches Err(BatchError::NoSuchPosition { pos: p, count: c })
            &&& p == pos && c == pre.count()
            &&& post == pre
        } else if T::size() * pre.batch_size > usize::MAX {
            &&& r matches Err(BatchError::BufferTooLarge { param })
            &&& param@ == T::option_name()
            &&& post == pre
        } else {
            &&& r == Ok::<usize, BatchError>((pos + 1) as usize)
            &&& post == pre.with_arrays(
                pos as int,
                packed_rows(
                    resized(pre.buffers[pos as int], (T::size() * pre.batch_size) as nat),
                    option_rows(vals),
                    T::size(),
                ),
                option_nulls(vals, pre.batch_size as nat),
                option_lens(vals, pre.batch_size as nat, T::size() as usize),
            ).after_bind(pos, T::spec_sql_type(), T::size() as usize)
        }
    }

    open spec fn update_ok(&self, after: Self, pos: usize, batch_size: usize, params: BatchParamsView, r: Result<usize, BatchError>) -> bool {
        unchanged_update(*self, after, pos, r)
    }

    /// Batch-binds a slice of optional fixed-size values at `pos`; `None`
    /// entries become NULL.
    fn bind_batch_to(&mut self, pos: usize, batch_size: usize, params: &mut BatchParams) -> (r: Result<usize, BatchError>) {
        params.check_batch_len(self.len(), T::option_value_name())?;
        let count = params.placeholder_count();
        if pos >= count {
            return Err(BatchError::NoSuchPosition { pos, count });
        }
        let size = T::byte_size();
        if size.checked_mul(params.batch_size()).is_none() {
            return Err(BatchError::BufferTooLarge { param: T::option_value_name().to_owned() });
        }
        let little = params.little_endian();
        let ghost vals = option_value_rows((*self)@, little);
        let mut encoded: Vec<Vec<u8>> = Vec::new();
        let mut i: usize = 0;
        while i < self.len()
            invariant
                i <= (*self)@.len(),
                size == T::size(),
                vals == option_value_rows((*self)@, little),
                encoded@.len() == i,
                forall|k: int| 0 <= k < i ==> (#[trigger] encoded@[k])@ == match vals[k] {
                    Some(b) => b,
                    None => Seq::<u8>::empty(),
                },
            decreases (*self)@.len() - i,
        {
            match self[i] {
                Some(v) => {
                    let b = encode_bits(v.to_bits(), size, little);
                    proof {
                        T::lemma_bits(v);
                    }
                    encoded.push(b);
                },
                None => {
                    encoded.push(Vec::new());
                },
            }
            i += 1;
        }
        let mut refs: Vec<Option<&[u8]>> = Vec::new();
        let mut j: usize = 0;
        while j < self.len()
            invariant
                j <= (*self)@.len(),
                encoded@.len() == (*self)@.len(),
                size == T::size(),
                vals == option_value_rows((*self)@, little),
                forall|k: int| 0 <= k < encoded@.len() ==> (#[trigger] encoded@[k])@ == match vals[k] {
                    Some(b) => b,
                    None => Seq::<u8>::empty(),
                },
                refs@.len() == j,
                forall|k: int| 0 <= k < j ==> match #[trigger] refs@[k] {
                    Some(b) => vals[k] == Some(b@),
                    None => vals[k] is None,
                },
            decreases (*self)@.len() - j,
        {
            if self[j].is_some() {
                refs.push(Some(encoded[j].as_slice()));
            } else {
                refs.push(None);
            }
            j += 1;
        }
        proof {
            assert(refs@.map_values(|o: Option<&[u8]>| match o { Some(b) => Some(b@), None => None }) =~= vals);
            assert forall|k: int| 0 <= k < refs@.len() && (#[trigger] refs@[k]) is Some implies refs@[k]->0@.len() == size by {
                let v = (*self)@[k]->0;
                T::lemma_bits(v);
                lemma_ordered_round_trip(v.bits(), T::size(), little);
            }
        }
        proof {
            T::lemma_size();
        }
        params.bind_batch_nullable_fixed(pos, T::sql_type(), size, refs.as_slice());
        Ok(pos + 1)
    }

    /// An IN argument is left as it is.
    fn update_batch_from_bind(&mut self, pos: usize, batch_size: usize, params: &BatchParams) -> (r: Result<usize, BatchError>) {
        Ok(pos + 1)
    }
}

impl<'a, T: BatchValue> ToBatchSql for &'a mut [Option<T>] {
    open spec fn width() -> nat {
        1
    }

    proof fn lemma_width() {
    }

    open spec fn bind_ok(&self, pos: usize, pre: BatchParamsView, post: BatchParamsView, r: Result<usize, BatchError>) -> bool {
        let vs = (*self)@;
        if vs.len() != pre.batch_size {
            &&& r matches Err(BatchError::LengthMismatch { param, len, batch_size: b })
            &&& param@ == T::option_name() && len == vs.len() && b == pre.batch_size
            &&& post == pre
        } else if pos >= pre.count() {
            &&& r matches Err(BatchError::NoSuchPosition { pos: p, count: c })
            &&& p == pos && c == pre.count()
            &&& post == pre
        } else {
            &&& r == Ok::<usize, BatchError>((pos + 1) as usize)
            &&& post == pre.with_arrays(
                pos as int,
                default_rows(vs, pre.little_endian).flatten(),
                uniform(pre.batch_size as nat, OCI_IND_NULL),
                uniform(pre.batch_size as nat, T::size() as u32),
            ).after_bind(pos, T::spec_sql_type(), T::size() as usize)
        }
    }

    open spec fn update_ok(&self, after: Self, pos: usize, batch_size: usize, params: BatchParamsView, r: Result<usize, BatchError>) -> bool {
        &&& r == Ok::<usize, BatchError>((pos + 1) as usize)
        &&& after@ == Seq::new(
            (*self)@.len(),
            |i: int|
                if i < batch_size && params.null_at(pos as int, i) {
                    None
                } else if i < batch_size && fetched_value::<T>(params, pos, i) is Some {
                    fetched_value::<T>(params, pos, i)
                } else {
                    (*self)@[i]
                },
        )
    }

    /// Batch-binds a mutable slice of optional fixed-size values as OUT
    /// parameters at `pos`; the buffer starts with the values, 0 for `None`.
    fn bind_batch_to(&mut self, pos: usize, batch_size: usize, params: &mut BatchParams) -> (r: Result<usize, BatchError>) {
        params.check_batch_len(self.len(), T::option_value_name())?;
        let count = params.placeholder_count();
        if pos >= count {
            return Err(BatchError::NoSuchPosition { pos, count });
        }
        let bytes = default_bytes(&**self, params.little_endian());
        let size = T::byte_size();
        proof {
            assert(bytes@.len() == size * params@.batch_size) by (nonlinear_arith)
                requires
                    bytes@.len() == (*self)@.len() * T::size(),
                    size == T::size(),
                    (*self)@.len() == params@.batch_size,
            ;
            assert(bytes@.take(bytes@.len() as int) =~= bytes@);
            assert(bytes@.len() == bytes.len());
        }
        proof {
            T::lemma_size();
        }
        params.bind_batch_nullable_out_fixed(pos, T::sql_type(), size, Some(bytes.as_slice()));
        Ok(pos + 1)
    }

    /// After execution: a NULL row becomes `None`, a row with a value
    /// `Some` of it.
    fn update_batch_from_bind(&mut self, pos: usize, batch_size: usize, params: &BatchParams) -> (r: Result<usize, BatchError>) {
        let n = self.len();
        let size = T::byte_size();
        let little = params.little_endian();
        let mut i: usize = 0;
        while i < batch_size && i < n
            invariant
                i <= n,
                i <= batch_size,
                n == (*old(self))@.len(),
                (*self)@.len() == n,
                size == T::size(),
                little == params@.little_endian,
                forall|k: int|
                    0 <= k < n ==> #[trigger] (*self)@[k] == if k < i && params@.null_at(pos as int, k) {
                        None
                    } else if k < i && fetched_value::<T>(params@, pos, k) is Some {
                        fetched_value::<T>(params@, pos, k)
                    } else {
                        (*old(self))@[k]
                    },
            decreases n - i,
        {
            if params.is_null_at(pos, i) {
                self[i] = None;
            } else if let Some(b) = params.get_fixed_data_at(pos, i, size) {
                let v: T = decode_value(b, little);
                self[i] = Some(v);
            }
            i += 1;
        }
        proof {
            assert((*self)@ =~= Seq::new(
                n as nat,
                |k: int|
                    if k < batch_size && params@.null_at(pos as int, k) {
                        None
                    } else if k < batch_size && fetched_value::<T>(params@, pos, k) is Some {
                        fetched_value::<T>(params@, pos, k)
                    } else {
                        (*old(self))@[k]
                    },
            ));
            Self::lemma_width();
        }
        Ok(pos + 1)
    }
}

} // verus!
