use vstd::prelude::*;
use vstd::slice::SliceAdditionalExecFns;
use vstd::string::StringSliceAdditionalSpecFns;
use vstd::utf8::{encode_utf8, valid_utf8};
use crate::args::{unchanged_update, ToBatchSql};
use crate::error::BatchError;
use crate::pack::resized;
use crate::params::{text_bound, text_stride, uniform, BatchParams, BatchParamsView, OCI_IND_NULL, SQLT_CHR};
use crate::text::{string_at_mut, string_capacity, string_clear, string_push_str, utf8_str};

verus! {

/// What binding text rows at `pos` does: the length check (the argument
/// named `param` in the error), the position check, the size check, then
/// the bind.
pub open spec fn text_bind_result(
    pre: BatchParamsView,
    pos: usize,
    rows: Seq<Seq<u8>>,
    param: Seq<char>,
    r: Result<usize, BatchError>,
    post: BatchParamsView,
) -> bool {
    if rows.len() != pre.batch_size {
        &&& r matches Err(BatchError::LengthMismatch { param: p, len, batch_size: b })
        &&& p@ == param && len == rows.len() && b == pre.batch_size
        &&& post == pre
    } else if pos >= pre.count() {
        &&& r matches Err(BatchError::NoSuchPosition { pos: p, count: c })
        &&& p == pos && c == pre.count()
        &&& post == pre
    } else if text_stride(rows) * pre.batch_size > usize::MAX || text_stride(rows) > u32::MAX {
        &&& r matches Err(BatchError::BufferTooLarge { param: p })
        &&& p@ == param
        &&& post == pre
    } else {
        &&& r == Ok::<usize, BatchError>((pos + 1) as usize)
        &&& post == text_bound(pre, pos, rows)
    }
}

/// Binds text rows as IN values at `pos`.
fn bind_text_rows(pos: usize, params: &mut BatchParams, rows: &[&[u8]], param: &str) -> (r: Result<usize, BatchError>)
    requires
        old(params).wf(),
        pos < usize::MAX,
    ensures
        final(params).wf(),
        text_bind_result(old(params)@, pos, rows@.map_values(|b: &[u8]| b@), param@, r, final(params)@),
{
    params.check_batch_len(rows.len(), param)?;
    let count = params.placeholder_count();
    if pos >= count {
        return Err(BatchError::NoSuchPosition { pos, count });
    }
    let m = BatchParams::max_len(rows);
    let stride: usize = if m == 0 { 1 } else { m };
    if stride.checked_mul(params.batch_size()).is_none() || stride > 0xffff_ffff {
        return Err(BatchError::BufferTooLarge { param: param.to_owned() });
    }
    params.bind_batch_str_in(pos, rows);
    Ok(pos + 1)
}

/// The UTF-8 bytes of each string.
pub open spec fn str_rows(ss: Seq<&str>) -> Seq<Seq<u8>> {
    ss.map_values(|s: &str| encode_utf8(s@))
}

/// The UTF-8 bytes of each string.
pub open spec fn string_rows(ss: Seq<String>) -> Seq<Seq<u8>> {
    ss.map_values(|s: String| encode_utf8(s@))
}

/// The UTF-8 bytes of each optional string, nothing for `None`.
pub open spec fn option_str_rows(ss: Seq<Option<&str>>) -> Seq<Seq<u8>> {
    ss.map_values(|o: Option<&str>| match o {
        Some(s) => encode_utf8(s@),
        None => Seq::empty(),
    })
}

impl<'a, 'b> ToBatchSql for &'a [&'b str] {
    open spec fn width() -> nat {
        1
    }

    proof fn lemma_width() {
    }

    open spec fn bind_ok(&self, pos: usize, pre: BatchParamsView, post: BatchParamsView, r: Result<usize, BatchError>) -> bool {
        text_bind_result(pre, pos, str_rows((*self)@), "&str"@, r, post)
    }

    open spec fn update_ok(&self, after: Self, pos: usize, batch_size: usize, params: BatchParamsView, r: Result<usize, BatchError>) -> bool {
        unchanged_update(*self, after, pos, r)
    }

    /// Batch-binds a slice of `&str` values as IN parameters at `pos`.
    /// Strings are packed into an internal padded buffer (max-length stride);
    /// an empty string is NULL.
    fn bind_batch_to(&mut self, pos: usize, batch_size: usize, params: &mut BatchParams) -> (r: Result<usize, BatchError>) {
        let mut rows: Vec<&[u8]> = Vec::new();
        let mut i: usize = 0;
        while i < self.len()
            invariant
                i <= (*self)@.len(),
                rows@.len() == i,
                forall|k: int| 0 <= k < i ==> (#[trigger] rows@[k])@ == str_rows((*self)@)[k],
            decreases (*self)@.len() - i,
        {
            rows.push(self[i].as_bytes());
            i += 1;
        }
        proof {
            assert(rows@.map_values(|b: &[u8]| b@) =~= str_rows((*self)@));
        }
        bind_text_rows(pos, params, rows.as_slice(), "&str")
    }

    /// An IN argument is left as it is.
    fn update_batch_from_bind(&mut self, pos: usize, batch_size: usize, params: &BatchParams) -> (r: Result<usize, BatchError>) {
        Ok(pos + 1)
    }
}

impl<'a> ToBatchSql for &'a [String] {
    open spec fn width() -> nat {
        1
    }

    proof fn lemma_width() {
    }

    open spec fn bind_ok(&self, pos: usize, pre: BatchParamsView, post: BatchParamsView, r: Result<usize, BatchError>) -> bool {
        text_bind_result(pre, pos, string_rows((*self)@), "String"@, r, post)
    }

    open spec fn update_ok(&self, after: Self, pos: usize, batch_size: usize, params: BatchParamsView, r: Result<usize, BatchError>) -> bool {
        unchanged_update(*self, after, pos, r)
    }

    /// Batch-binds a slice of `String` values as IN parameters at `pos`.
    fn bind_batch_to(&mut self, pos: usize, batch_size: usize, params: &mut BatchParams) -> (r: Result<usize, BatchError>) {
        let mut rows: Vec<&[u8]> = Vec::new();
        let mut i: usize = 0;
        while i < self.len()
            invariant
                i <= (*self)@.len(),
                rows@.len() == i,
                forall|k: int| 0 <= k < i ==> (#[trigger] rows@[k])@ == string_rows((*self)@)[k],
            decreases (*self)@.len() - i,
        {
            rows.push(self[i].as_str().as_bytes());
            i += 1;
        }
        proof {
            assert(rows@.map_values(|b: &[u8]| b@) =~= string_rows((*self)@));
        }
        bind_text_rows(pos, params, rows.as_slice(), "String")
    }

    /// An IN argument is left as it is.
    fn update_batch_from_bind(&mut self, pos: usize, batch_size: usize, params: &BatchParams) -> (r: Result<usize, BatchError>) {
        Ok(pos + 1)
    }
}

impl<'a, 'b> ToBatchSql for &'a [Option<&'b str>] {
    open spec fn width() -> nat {
        1
    }

    proof fn lemma_width() {
    }

    open spec fn bind_ok(&self, pos: usize, pre: BatchParamsView, post: BatchParamsView, r: Result<usize, BatchError>) -> bool {
        text_bind_result(pre, pos, option_str_rows((*self)@), "Option<&str>"@, r, post)
    }

    open spec fn update_ok(&self, after: Self, pos: usize, batch_size: usize, params: BatchParamsView, r: Result<usize, BatchError>) -> bool {
        unchanged_update(*self, after, pos, r)
    }

    /// Batch-binds a slice of optional `&str` values as IN parameters at
    /// `pos`; `None` entries (and empty strings) become NULL.
    fn bind_batch_to(&mut self, pos: usize, batch_size: usize, params: &mut BatchParams) -> (r: Result<usize, BatchError>) {
        let empty: &[u8] = &[];
        let mut rows: Vec<&[u8]> = Vec::new();
        let mut i: usize = 0;
        while i < self.len()
            invariant
                i <= (*self)@.len(),
                empty@.len() == 0,
                rows@.len() == i,
                forall|k: int| 0 <= k < i ==> (#[trigger] rows@[k])@ == option_str_rows((*self)@)[k],
            decreases (*self)@.len() - i,
        {
            match self[i] {
                Some(s) => rows.push(s.as_bytes()),
                None => {
                    rows.push(empty);
                    proof {
                        assert(empty@ =~= Seq::<u8>::empty());
                    }
                },
            }
            i += 1;
        }
        proof {
            assert(rows@.map_values(|b: &[u8]| b@) =~= option_str_rows((*self)@));
        }
        bind_text_rows(pos, params, rows.as_slice(), "Option<&str>")
    }

    /// An IN argument is left as it is.
    fn update_batch_from_bind(&mut self, pos: usize, batch_size: usize, params: &BatchParams) -> (r: Result<usize, BatchError>) {
        Ok(pos + 1)
    }
}


/// The smaller of two numbers.
pub open spec fn min_nat(a: nat, b: nat) -> nat {
    if a <= b {
        a
    } else {
        b
    }
}

/// The first `k` bytes of `b`.
pub open spec fn text_cut(b: Seq<u8>, k: nat) -> Seq<u8> {
    b.take(k as int)
}

/// What an OUT string of row `row` becomes after execution, from the
/// string `before`: empty when the row is NULL or has no text; otherwise
/// the text the client returned, cut at the string's capacity.  The
/// capacity is some number of bytes at least the string's length, so the
/// cut is all of the text or at least as long as `before`.
pub open spec fn fetched_text(params: BatchParamsView, pos: usize, row: int, before: String, after: String) -> bool {
    if params.null_at(pos as int, row) {
        after@ == Seq::<char>::empty()
    } else {
        match params.str_data_at(pos as int, row) {
            Some(b) => {
                let k = encode_utf8(after@).len();
                &&& k <= b.len()
                &&& encode_utf8(after@) == text_cut(b, k)
                &&& (k == b.len() || k >= encode_utf8(before@).len())
            },
            None => after@ == Seq::<char>::empty(),
        }
    }
}

/// Row `row` is not NULL, and its text, cut at some capacity of at least
/// `before`'s length, is not valid UTF-8.
pub open spec fn fetched_text_invalid(params: BatchParamsView, pos: usize, row: int, before: String) -> bool {
    !params.null_at(pos as int, row) && match params.str_data_at(pos as int, row) {
        Some(b) => exists|k: nat|
            k <= b.len() && (k == b.len() || k >= encode_utf8(before@).len()) && !valid_utf8(#[trigger] text_cut(b, k)),
        None => false,
    }
}

/// The state after a text OUT buffer with slots of `cap` bytes has been
/// bound at `pos`.
pub open spec fn text_out_bound(pre: BatchParamsView, pos: usize, cap: usize) -> BatchParamsView {
    pre.with_arrays(
        pos as int,
        resized(pre.buffers[pos as int], (cap * pre.batch_size) as nat),
        uniform(pre.batch_size as nat, OCI_IND_NULL),
        uniform(pre.batch_size as nat, cap as u32),
    ).after_bind(pos, SQLT_CHR, cap)
}

/// The largest of the capacities (0 when there is none).
pub open spec fn max_cap(caps: Seq<usize>) -> nat
    decreases caps.len(),
{
    if caps.len() == 0 {
        0
    } else {
        let m = max_cap(caps.drop_last());
        if caps.last() > m {
            caps.last() as nat
        } else {
            m
        }
    }
}

/// The slot size of OUT strings with these capacities: the largest, at
/// least 1; 256 when there are no strings.
pub open spec fn out_stride(caps: Seq<usize>) -> nat {
    if caps.len() == 0 {
        256
    } else if max_cap(caps) == 0 {
        1
    } else {
        max_cap(caps)
    }
}

/// The slot size of OUT strings with these capacities, if `batch_size`
/// slots of it fit in memory.
pub open spec fn out_stride_for(caps: Seq<usize>, batch_size: usize) -> Option<usize> {
    if out_stride(caps) * batch_size <= usize::MAX && out_stride(caps) <= u32::MAX {
        Some(out_stride(caps) as usize)
    } else {
        None
    }
}

/// The largest capacity is a capacity, and bounds every one.
pub proof fn lemma_max_cap(caps: Seq<usize>)
    ensures
        max_cap(caps) <= usize::MAX,
        forall|i: int| 0 <= i < caps.len() ==> caps[i] <= max_cap(caps),
    decreases caps.len(),
{
    if caps.len() > 0 {
        lemma_max_cap(caps.drop_last());
        assert forall|i: int| 0 <= i < caps.len() implies caps[i] <= max_cap(caps) by {
            if i < caps.len() - 1 {
                assert(caps[i] == caps.drop_last()[i]);
            }
        }
    }
}

/// The slot size of OUT strings with the capacities `caps`, if
/// `batch_size` slots of it fit in memory.
pub fn out_text_stride(caps: &[usize], batch_size: usize) -> (r: Option<usize>)
    ensures
        r == out_stride_for(caps@, batch_size),
        r matches Some(s) ==> s == out_stride(caps@) && s * batch_size <= usize::MAX && s <= u32::MAX,
{
    let mut m: usize = 0;
    let mut i: usize = 0;
    while i < caps.len()
        invariant
            i <= caps@.len(),
            m == max_cap(caps@.take(i as int)),
        decreases caps@.len() - i,
    {
        proof {
            assert(caps@.take(i + 1).drop_last() =~= caps@.take(i as int));
        }
        if caps[i] > m {
            m = caps[i];
        }
        i += 1;
    }
    proof {
        assert(caps@.take(caps@.len() as int) =~= caps@);
    }
    let stride: usize = if caps.len() == 0 {
        256
    } else if m == 0 {
        1
    } else {
        m
    };
    if stride > 0xffff_ffff {
        return None;
    }
    match stride.checked_mul(batch_size) {
        Some(_) => Some(stride),
        None => None,
    }
}

/// The text a client returned for an OUT string, cut at `cap` bytes, or
/// `InvalidText` for row `row` when those bytes are not valid UTF-8.
pub fn out_text(bytes: &[u8], cap: usize, row: usize) -> (r: Result<&str, BatchError>)
    ensures
        r matches Ok(s) ==> encode_utf8(s@) == bytes@.take(min_nat(bytes@.len(), cap as nat) as int),
        r is Err <==> !valid_utf8(bytes@.take(min_nat(bytes@.len(), cap as nat) as int)),
        r matches Err(e) ==> e == (BatchError::InvalidText { row }),
{
    let new_len = if bytes.len() <= cap { bytes.len() } else { cap };
    let part = vstd::slice::slice_subrange(bytes, 0, new_len);
    proof {
        assert(part@ =~= bytes@.take(min_nat(bytes@.len(), cap as nat) as int));
    }
    match utf8_str(part) {
        Some(t) => Ok(t),
        None => Err(BatchError::InvalidText { row }),
    }
}

/// Binding OUT strings whose capacities are `caps`: a slot of
/// `out_stride(caps)` bytes per row, or `BufferTooLarge` exactly when the
/// slots do not fit in memory.
pub open spec fn text_out_bind(
    pre: BatchParamsView,
    pos: usize,
    ss: Seq<String>,
    caps: Seq<usize>,
    post: BatchParamsView,
    r: Result<usize, BatchError>,
) -> bool {
    &&& caps.len() == ss.len()
    &&& forall|i: int| 0 <= i < ss.len() ==> encode_utf8((#[trigger] ss[i])@).len() <= caps[i]
    &&& match out_stride_for(caps, pre.batch_size) {
        Some(s) => r == Ok::<usize, BatchError>((pos + 1) as usize) && post == text_out_bound(pre, pos, s),
        None => r matches Err(BatchError::BufferTooLarge { param }) && param@ == "String (OUT)"@ && post == pre,
    }
}

impl<'a> ToBatchSql for &'a mut [String] {
    open spec fn width() -> nat {
        1
    }

    proof fn lemma_width() {
    }

    open spec fn bind_ok(&self, pos: usize, pre: BatchParamsView, post: BatchParamsView, r: Result<usize, BatchError>) -> bool {
        let ss = (*self)@;
        if ss.len() != pre.batch_size {
            &&& r matches Err(BatchError::LengthMismatch { param, len, batch_size: b })
            &&& param@ == "String (OUT)"@ && len == ss.len() && b == pre.batch_size
            &&& post == pre
        } else if pos >= pre.count() {
            &&& r matches Err(BatchError::NoSuchPosition { pos: p, count: c })
            &&& p == pos && c == pre.count()
            &&& post == pre
        } else {
            exists|caps: Seq<usize>| #[trigger] text_out_bind(pre, pos, ss, caps, post, r)
        }
    }

    open spec fn update_ok(&self, after: Self, pos: usize, batch_size: usize, params: BatchParamsView, r: Result<usize, BatchError>) -> bool {
        &&& after@.len() == (*self)@.len()
        &&& r is Ok ==> {
            &&& r == Ok::<usize, BatchError>((pos + 1) as usize)
            &&& forall|i: int| 0 <= i < (*self)@.len() ==>
                if i < batch_size {
                    fetched_text(params, pos, i, (*self)@[i], #[trigger] after@[i])
                } else {
                    after@[i] == (*self)@[i]
                }
        }
        &&& r is Err ==> (r matches Err(BatchError::InvalidText { row }) && {
            &&& row < batch_size && row < (*self)@.len()
            &&& fetched_text_invalid(params, pos, row as int, (*self)@[row as int])
            &&& forall|i: int| 0 <= i < (*self)@.len() ==>
                if i < row {
                    fetched_text(params, pos, i, (*self)@[i], #[trigger] after@[i])
                } else {
                    after@[i] == (*self)@[i]
                }
        })
    }

    /// Batch-binds a mutable slice of `String` values as OUT parameters at
    /// `pos`.  Each row gets a slot as large as the largest capacity among
    /// the strings (256 bytes when there are none, at least 1).
    fn bind_batch_to(&mut self, pos: usize, batch_size: usize, params: &mut BatchParams) -> (r: Result<usize, BatchError>) {
        params.check_batch_len(self.len(), "String (OUT)")?;
        let count = params.placeholder_count();
        if pos >= count {
            return Err(BatchError::NoSuchPosition { pos, count });
        }
        let mut caps: Vec<usize> = Vec::new();
        let mut i: usize = 0;
        while i < self.len()
            invariant
                i <= (*self)@.len(),
                caps@.len() == i,
                forall|k: int| 0 <= k < i ==> encode_utf8((#[trigger] (*self)@[k])@).len() <= caps@[k],
            decreases (*self)@.len() - i,
        {
            let c = string_capacity(&self[i]);
            caps.push(c);
            i += 1;
        }
        let ghost pre = params@;
        match out_text_stride(caps.as_slice(), params.batch_size()) {
            Some(cap) => {
                params.bind_batch_str_out(pos, cap);
                proof {
                    assert(text_out_bind(pre, pos, (*self)@, caps@, params@, Ok::<usize, BatchError>((pos + 1) as usize)));
                }
                Ok(pos + 1)
            },
            None => {
                let r = Err(BatchError::BufferTooLarge { param: "String (OUT)".to_owned() });
                proof {
                    assert(text_out_bind(pre, pos, (*self)@, caps@, params@, r));
                }
                r
            },
        }
    }

    /// After execution: a NULL row, or one without text, clears its string;
    /// every other string gets the text the client returned for its row,
    /// cut at the string's capacity and written in place.  Text that is not
    /// valid UTF-8 is refused.
    fn update_batch_from_bind(&mut self, pos: usize, batch_size: usize, params: &BatchParams) -> (r: Result<usize, BatchError>) {
        let n = self.len();
        let mut i: usize = 0;
        while i < batch_size && i < n
            invariant
                i <= n,
                i <= batch_size,
                n == (*old(self))@.len(),
                (*self)@.len() == n,
                forall|k: int| 0 <= k < n ==>
                    if k < i {
                        fetched_text(params@, pos, k, (*old(self))@[k], #[trigger] (*self)@[k])
                    } else {
                        (*self)@[k] == (*old(self))@[k]
                    },
            decreases n - i,
        {
            if params.is_null_at(pos, i) {
                let s = string_at_mut(&mut **self, i);
                string_clear(s);
            } else {
                match params.get_str_data_at(pos, i) {
                    Some(bytes) => {
                        let cap = string_capacity(&self[i]);
                        proof {
                            assert((*self)@[i as int] == (*old(self))@[i as int]);
                        }
                        match out_text(bytes, cap, i) {
                            Ok(t) => {
                                let ghost k = min_nat(bytes@.len(), cap as nat);
                                proof {
                                    assert(text_cut(bytes@, k) == bytes@.take(k as int));
                                }
                                let s = string_at_mut(&mut **self, i);
                                string_clear(s);
                                string_push_str(s, t);
                                proof {
                                    assert(s@ =~= t@);
                                }
                            },
                            Err(e) => {
                                proof {
                                    let b = params@.str_data_at(pos as int, i as int)->0;
                                    let k = min_nat(bytes@.len(), cap as nat);
                                    assert(b == bytes@);
                                    assert(text_cut(b, k) == bytes@.take(k as int));
                                    assert(k <= b.len() && (k == b.len() || k >= encode_utf8((*old(self))@[i as int]@).len())
                                        && !valid_utf8(text_cut(b, k)));
                                    assert(fetched_text_invalid(params@, pos, i as int, (*old(self))@[i as int]));
                                }
                                return Err(e);
                            },
                        }
                    },
                    None => {
                        let s = string_at_mut(&mut **self, i);
                        string_clear(s);
                    },
                }
            }
            i += 1;
        }
        proof {
            Self::lemma_width();
        }
        Ok(pos + 1)
    }
}

} // verus!
