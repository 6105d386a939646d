use vstd::prelude::*;
use crate::error::BatchError;
use crate::name::stripped_name;
use crate::params::{lookup_placeholder, BatchParams, BatchParamsView};

verus! {

/// The largest position that binding an argument of width `width` at
/// position `pos` can give back, with `count` placeholders.
pub open spec fn next_bound(pos: usize, count: nat, width: nat) -> nat {
    (if pos >= count { pos as nat } else { count }) + width
}

/// What binding leaves as it was: the placeholders, the batch size and
/// the byte order.
pub open spec fn same_frame(a: BatchParamsView, b: BatchParamsView) -> bool {
    &&& a.placeholders == b.placeholders
    &&& a.count() == b.count()
    &&& a.batch_size == b.batch_size
    &&& a.little_endian == b.little_endian
}

/// A trait for types that can be used as batch SQL arguments.
///
/// Each implementation binds an array of values (one per row in the batch)
/// to a SQL parameter placeholder, or, for named arguments and tuples, the
/// arguments it is made of.
pub trait ToBatchSql: Sized {
    /// How far at most the position moves past the larger of the starting
    /// position and the number of placeholders.
    spec fn width() -> nat;

    proof fn lemma_width()
        ensures
            Self::width() >= 1,
    ;

    /// Binding this argument at position `pos` to parameters in state
    /// `pre` gives the state `post` and the result `r`.
    spec fn bind_ok(&self, pos: usize, pre: BatchParamsView, post: BatchParamsView, r: Result<usize, BatchError>) -> bool;

    /// Updating this argument, which becomes `after`, from position `pos`
    /// of the executed parameters `params` with `batch_size` rows gives the
    /// result `r`.
    spec fn update_ok(&self, after: Self, pos: usize, batch_size: usize, params: BatchParamsView, r: Result<usize, BatchError>) -> bool;

    /// Binds a batch of values to SQL parameter placeholder(s).
    ///
    /// `pos` is the zero-based index of the first parameter to bind.
    /// `batch_size` is the number of rows in the batch.
    ///
    /// Returns the index of the placeholder for the next argument.
    fn bind_batch_to(&mut self, pos: usize, batch_size: usize, params: &mut BatchParams) -> (r: Result<usize, BatchError>)
        requires
            old(params).wf(),
            next_bound(pos, old(params)@.count(), Self::width()) <= usize::MAX,
        ensures
            final(params).wf(),
            same_frame(old(params)@, final(params)@),
            r matches Ok(p) ==> p <= next_bound(pos, old(params)@.count(), Self::width()),
            (*old(self)).bind_ok(pos, old(params)@, final(params)@, r),
            *final(self) == *old(self),
    ;

    /// Called after batch execution to update OUT (or INOUT) arguments;
    /// arguments that are IN only stay as they are and move to the next
    /// position.
    fn update_batch_from_bind(&mut self, pos: usize, batch_size: usize, params: &BatchParams) -> (r: Result<usize, BatchError>)
        requires
            params.wf(),
            next_bound(pos, params@.count(), Self::width()) <= usize::MAX,
        ensures
            r matches Ok(p) ==> p <= next_bound(pos, params@.count(), Self::width()),
            (*old(self)).update_ok(*final(self), pos, batch_size, params@, r),
    ;
}

/// An IN argument is left as it is by the update, which moves to the next
/// position.
pub open spec fn unchanged_update<T>(before: T, after: T, pos: usize, r: Result<usize, BatchError>) -> bool {
    r == Ok::<usize, BatchError>((pos + 1) as usize) && after == before
}

/// A name that is not a placeholder is refused, naming it without colon.
pub open spec fn unknown_name(name: Seq<char>, r: Result<usize, BatchError>) -> bool {
    r matches Err(BatchError::UnknownPlaceholder { name: n }) && n@ == stripped_name(name)
}

impl<'b, T: ToBatchSql> ToBatchSql for (&'b str, T) {
    open spec fn width() -> nat {
        T::width()
    }

    proof fn lemma_width() {
        T::lemma_width();
    }

    open spec fn bind_ok(&self, pos: usize, pre: BatchParamsView, post: BatchParamsView, r: Result<usize, BatchError>) -> bool {
        match lookup_placeholder(pre.placeholders, self.0@) {
            None => unknown_name(self.0@, r) && post == pre,
            Some(idx) => self.1.bind_ok(idx, pre, post, r),
        }
    }

    open spec fn update_ok(&self, after: Self, pos: usize, batch_size: usize, params: BatchParamsView, r: Result<usize, BatchError>) -> bool {
        &&& after.0 == self.0
        &&& match lookup_placeholder(params.placeholders, self.0@) {
            None => unknown_name(self.0@, r) && after.1 == self.1,
            Some(idx) => self.1.update_ok(after.1, idx, batch_size, params, r),
        }
    }

    /// Binds the argument at the placeholder of the given name.
    fn bind_batch_to(&mut self, pos: usize, batch_size: usize, params: &mut BatchParams) -> (r: Result<usize, BatchError>) {
        match params.index_of(self.0) {
            Ok(idx) => self.1.bind_batch_to(idx, batch_size, params),
            Err(e) => Err(e),
        }
    }

    /// Updates the argument from the placeholder of the given name.
    fn update_batch_from_bind(&mut self, pos: usize, batch_size: usize, params: &BatchParams) -> (r: Result<usize, BatchError>) {
        let ghost s0 = *self;
        match params.index_of(self.0) {
            Ok(idx) => {
                let r = self.1.update_batch_from_bind(idx, batch_size, params);
                proof {
                    let cur = *self;
                    assert(s0.1.update_ok(cur.1, idx, batch_size, params@, r));
                }
                r
            },
            Err(e) => Err(e),
        }
    }
}

impl<'b, 'c, T1: ToBatchSql, T2: ToBatchSql> ToBatchSql for ((&'b str, T1), (&'c str, T2)) {
    open spec fn width() -> nat {
        T1::width() + T2::width()
    }

    proof fn lemma_width() {
        T1::lemma_width();
    }

    open spec fn bind_ok(&self, pos: usize, pre: BatchParamsView, post: BatchParamsView, r: Result<usize, BatchError>) -> bool {
        exists|mid: BatchParamsView, q: Result<usize, BatchError>|
            #[trigger] self.0.bind_ok(pos, pre, mid, q) && match q {
                Err(_) => post == mid && r == q,
                Ok(_) => self.1.bind_ok(pos, mid, post, r),
            }
    }

    open spec fn update_ok(&self, after: Self, pos: usize, batch_size: usize, params: BatchParamsView, r: Result<usize, BatchError>) -> bool {
        exists|q: Result<usize, BatchError>|
            #[trigger] self.0.update_ok(after.0, pos, batch_size, params, q) && match q {
                Err(_) => after.1 == self.1 && r == q,
                Ok(_) => self.1.update_ok(after.1, pos, batch_size, params, r),
            }
    }

    /// Binds both arguments at the placeholders of their names.
    fn bind_batch_to(&mut self, pos: usize, batch_size: usize, params: &mut BatchParams) -> (r: Result<usize, BatchError>) {
        let ghost s0 = *self;
        let ghost v0 = params@;
        let r1 = self.0.bind_batch_to(pos, batch_size, params);
        let ghost v1 = params@;
        match r1 {
            Ok(_) => {},
            Err(e) => {
                proof {
                    assert(s0.0.bind_ok(pos, v0, v1, r1));
                }
                return Err(e);
            },
        }
        let r = self.1.bind_batch_to(pos, batch_size, params);
        proof {
            assert(s0.0.bind_ok(pos, v0, v1, r1));
            assert(s0.1.bind_ok(pos, v1, params@, r));
        }
        r
    }

    /// Updates both arguments from the placeholders of their names.
    fn update_batch_from_bind(&mut self, pos: usize, batch_size: usize, params: &BatchParams) -> (r: Result<usize, BatchError>) {
        let ghost s0 = *self;
        let r1 = self.0.update_batch_from_bind(pos, batch_size, params);
        match r1 {
            Ok(_) => {},
            Err(e) => {
                proof {
                    let cur = *self;
                    assert(s0.0.update_ok(cur.0, pos, batch_size, params@, r1));
                    assert(cur.1 == s0.1);
                }
                return Err(e);
            },
        }
        let r = self.1.update_batch_from_bind(pos, batch_size, params);
        proof {
            let cur = *self;
            assert(s0.0.update_ok(cur.0, pos, batch_size, params@, r1));
            assert(s0.1.update_ok(cur.1, pos, batch_size, params@, r));
        }
        r
    }
}

impl ToBatchSql for () {
    open spec fn width() -> nat {
        1
    }

    proof fn lemma_width() {
    }

    open spec fn bind_ok(&self, pos: usize, pre: BatchParamsView, post: BatchParamsView, r: Result<usize, BatchError>) -> bool {
        r == Ok::<usize, BatchError>((pos + 1) as usize) && post == pre
    }

    open spec fn update_ok(&self, after: Self, pos: usize, batch_size: usize, params: BatchParamsView, r: Result<usize, BatchError>) -> bool {
        unchanged_update(*self, after, pos, r)
    }

    /// Binds nothing and moves to the next position.
    fn bind_batch_to(&mut self, pos: usize, batch_size: usize, params: &mut BatchParams) -> (r: Result<usize, BatchError>) {
        Ok(pos + 1)
    }

    fn update_batch_from_bind(&mut self, pos: usize, batch_size: usize, params: &BatchParams) -> (r: Result<usize, BatchError>) {
        Ok(pos + 1)
    }
}

impl ToBatchSql for i8 {
    open spec fn width() -> nat {
        1
    }

    proof fn lemma_width() {
    }

    open spec fn bind_ok(&self, pos: usize, pre: BatchParamsView, post: BatchParamsView, r: Result<usize, BatchError>) -> bool {
        r matches Err(BatchError::SingleValue { value_type }) && value_type@ == "i8"@ && post == pre
    }

    open spec fn update_ok(&self, after: Self, pos: usize, batch_size: usize, params: BatchParamsView, r: Result<usize, BatchError>) -> bool {
        unchanged_update(*self, after, pos, r)
    }

    /// A single value cannot be bound as an array.
    fn bind_batch_to(&mut self, pos: usize, batch_size: usize, params: &mut BatchParams) -> (r: Result<usize, BatchError>) {
        Err(BatchError::SingleValue { value_type: "i8".to_owned() })
    }

    fn update_batch_from_bind(&mut self, pos: usize, batch_size: usize, params: &BatchParams) -> (r: Result<usize, BatchError>) {
        Ok(pos + 1)
    }
}

impl ToBatchSql for i16 {
    open spec fn width() -> nat {
        1
    }

    proof fn lemma_width() {
    }

    open spec fn bind_ok(&self, pos: usize, pre: BatchParamsView, post: BatchParamsView, r: Result<usize, BatchError>) -> bool {
        r matches Err(BatchError::SingleValue { value_type }) && value_type@ == "i16"@ && post == pre
    }

    open spec fn update_ok(&self, after: Self, pos: usize, batch_size: usize, params: BatchParamsView, r: Result<usize, BatchError>) -> bool {
        unchanged_update(*self, after, pos, r)
    }

    /// A single value cannot be bound as an array.
    fn bind_batch_to(&mut self, pos: usize, batch_size: usize, params: &mut BatchParams) -> (r: Result<usize, BatchError>) {
        Err(BatchError::SingleValue { value_type: "i16".to_owned() })
    }

    fn update_batch_from_bind(&mut self, pos: usize, batch_size: usize, params: &BatchParams) -> (r: Result<usize, BatchError>) {
        Ok(pos + 1)
    }
}

impl ToBatchSql for i32 {
    open spec fn width() -> nat {
        1
    }

    proof fn lemma_width() {
    }

    open spec fn bind_ok(&self, pos: usize, pre: BatchParamsView, post: BatchParamsView, r: Result<usize, BatchError>) -> bool {
        r matches Err(BatchError::SingleValue { value_type }) && value_type@ == "i32"@ && post == pre
    }

    open spec fn update_ok(&self, after: Self, pos: usize, batch_size: usize, params: BatchParamsView, r: Result<usize, BatchError>) -> bool {
        unchanged_update(*self, after, pos, r)
    }

    /// A single value cannot be bound as an array.
    fn bind_batch_to(&mut self, pos: usize, batch_size: usize, params: &mut BatchParams) -> (r: Result<usize, BatchError>) {
        Err(BatchError::SingleValue { value_type: "i32".to_owned() })
    }

    fn update_batch_from_bind(&mut self, pos: usize, batch_size: usize, params: &BatchParams) -> (r: Result<usize, BatchError>) {
        Ok(pos + 1)
    }
}

impl ToBatchSql for i64 {
    open spec fn width() -> nat {
        1
    }

    proof fn lemma_width() {
    }

    open spec fn bind_ok(&self, pos: usize, pre: BatchParamsView, post: BatchParamsView, r: Result<usize, BatchError>) -> bool {
        r matches Err(BatchError::SingleValue { value_type }) && value_type@ == "i64"@ && post == pre
    }

    open spec fn update_ok(&self, after: Self, pos: usize, batch_size: usize, params: BatchParamsView, r: Result<usize, BatchError>) -> bool {
        unchanged_update(*self, after, pos, r)
    }

    /// A single value cannot be bound as an array.
    fn bind_batch_to(&mut self, pos: usize, batch_size: usize, params: &mut BatchParams) -> (r: Result<usize, BatchError>) {
        Err(BatchError::SingleValue { value_type: "i64".to_owned() })
    }

    fn update_batch_from_bind(&mut self, pos: usize, batch_size: usize, params: &BatchParams) -> (r: Result<usize, BatchError>) {
        Ok(pos + 1)
    }
}

impl ToBatchSql for isize {
    open spec fn width() -> nat {
        1
    }

    proof fn lemma_width() {
    }

    open spec fn bind_ok(&self, pos: usize, pre: BatchParamsView, post: BatchParamsView, r: Result<usize, BatchError>) -> bool {
        r matches Err(BatchError::SingleValue { value_type }) && value_type@ == "isize"@ && post == pre
    }

    open spec fn update_ok(&self, after: Self, pos: usize, batch_size: usize, params: BatchParamsView, r: Result<usize, BatchError>) -> bool {
        unchanged_update(*self, after, pos, r)
    }

    /// A single value cannot be bound as an array.
    fn bind_batch_to(&mut self, pos: usize, batch_size: usize, params: &mut BatchParams) -> (r: Result<usize, BatchError>) {
        Err(BatchError::SingleValue { value_type: "isize".to_owned() })
    }

    fn update_batch_from_bind(&mut self, pos: usize, batch_size: usize, params: &BatchParams) -> (r: Result<usize, BatchError>) {
        Ok(pos + 1)
    }
}

impl ToBatchSql for u8 {
    open spec fn width() -> nat {
        1
    }

    proof fn lemma_width() {
    }

    open spec fn bind_ok(&self, pos: usize, pre: BatchParamsView, post: BatchParamsView, r: Result<usize, BatchError>) -> bool {
        r matches Err(BatchError::SingleValue { value_type }) && value_type@ == "u8"@ && post == pre
    }

    open spec fn update_ok(&self, after: Self, pos: usize, batch_size: usize, params: BatchParamsView, r: Result<usize, BatchError>) -> bool {
        unchanged_update(*self, after, pos, r)
    }

    /// A single value cannot be bound as an array.
    fn bind_batch_to(&mut self, pos: usize, batch_size: usize, params: &mut BatchParams) -> (r: Result<usize, BatchError>) {
        Err(BatchError::SingleValue { value_type: "u8".to_owned() })
    }

    fn update_batch_from_bind(&mut self, pos: usize, batch_size: usize, params: &BatchParams) -> (r: Result<usize, BatchError>) {
        Ok(pos + 1)
    }
}

impl ToBatchSql for u16 {
    open spec fn width() -> nat {
        1
    }

    proof fn lemma_width() {
    }

    open spec fn bind_ok(&self, pos: usize, pre: BatchParamsView, post: BatchParamsView, r: Result<usize, BatchError>) -> bool {
        r matches Err(BatchError::SingleValue { value_type }) && value_type@ == "u16"@ && post == pre
    }

    open spec fn update_ok(&self, after: Self, pos: usize, batch_size: usize, params: BatchParamsView, r: Result<usize, BatchError>) -> bool {
        unchanged_update(*self, after, pos, r)
    }

    /// A single value cannot be bound as an array.
    fn bind_batch_to(&mut self, pos: usize, batch_size: usize, params: &mut BatchParams) -> (r: Result<usize, BatchError>) {
        Err(BatchError::SingleValue { value_type: "u16".to_owned() })
    }

    fn update_batch_from_bind(&mut self, pos: usize, batch_size: usize, params: &BatchParams) -> (r: Result<usize, BatchError>) {
        Ok(pos + 1)
    }
}

impl ToBatchSql for u32 {
    open spec fn width() -> nat {
        1
    }

    proof fn lemma_width() {
    }

    open spec fn bind_ok(&self, pos: usize, pre: BatchParamsView, post: BatchParamsView, r: Result<usize, BatchError>) -> bool {
        r matches Err(BatchError::SingleValue { value_type }) && value_type@ == "u32"@ && post == pre
    }

    open spec fn update_ok(&self, after: Self, pos: usize, batch_size: usize, params: BatchParamsView, r: Result<usize, BatchError>) -> bool {
        unchanged_update(*self, after, pos, r)
    }

    /// A single value cannot be bound as an array.
    fn bind_batch_to(&mut self, pos: usize, batch_size: usize, params: &mut BatchParams) -> (r: Result<usize, BatchError>) {
        Err(BatchError::SingleValue { value_type: "u32".to_owned() })
    }

    fn update_batch_from_bind(&mut self, pos: usize, batch_size: usize, params: &BatchParams) -> (r: Result<usize, BatchError>) {
        Ok(pos + 1)
    }
}

impl ToBatchSql for u64 {
    open spec fn width() -> nat {
        1
    }

    proof fn lemma_width() {
    }

    open spec fn bind_ok(&self, pos: usize, pre: BatchParamsView, post: BatchParamsView, r: Result<usize, BatchError>) -> bool {
        r matches Err(BatchError::SingleValue { value_type }) && value_type@ == "u64"@ && post == pre
    }

    open spec fn update_ok(&self, after: Self, pos: usize, batch_size: usize, params: BatchParamsView, r: Result<usize, BatchError>) -> bool {
        unchanged_update(*self, after, pos, r)
    }

    /// A single value cannot be bound as an array.
    fn bind_batch_to(&mut self, pos: usize, batch_size: usize, params: &mut BatchParams) -> (r: Result<usize, BatchError>) {
        Err(BatchError::SingleValue { value_type: "u64".to_owned() })
    }

    fn update_batch_from_bind(&mut self, pos: usize, batch_size: usize, params: &BatchParams) -> (r: Result<usize, BatchError>) {
        Ok(pos + 1)
    }
}

impl ToBatchSql for usize {
    open spec fn width() -> nat {
        1
    }

    proof fn lemma_width() {
    }

    open spec fn bind_ok(&self, pos: usize, pre: BatchParamsView, post: BatchParamsView, r: Result<usize, BatchError>) -> bool {
        r matches Err(BatchError::SingleValue { value_type }) && value_type@ == "usize"@ && post == pre
    }

    open spec fn update_ok(&self, after: Self, pos: usize, batch_size: usize, params: BatchParamsView, r: Result<usize, BatchError>) -> bool {
        unchanged_update(*self, after, pos, r)
    }

    /// A single value cannot be bound as an array.
    fn bind_batch_to(&mut self, pos: usize, batch_size: usize, params: &mut BatchParams) -> (r: Result<usize, BatchError>) {
        Err(BatchError::SingleValue { value_type: "usize".to_owned() })
    }

    fn update_batch_from_bind(&mut self, pos: usize, batch_size: usize, params: &BatchParams) -> (r: Result<usize, BatchError>) {
        Ok(pos + 1)
    }
}

impl<'b> ToBatchSql for &'b str {
    open spec fn width() -> nat {
        1
    }

    proof fn lemma_width() {
    }

    open spec fn bind_ok(&self, pos: usize, pre: BatchParamsView, post: BatchParamsView, r: Result<usize, BatchError>) -> bool {
        r matches Err(BatchError::SingleValue { value_type }) && value_type@ == "&str"@ && post == pre
    }

    open spec fn update_ok(&self, after: Self, pos: usize, batch_size: usize, params: BatchParamsView, r: Result<usize, BatchError>) -> bool {
        unchanged_update(*self, after, pos, r)
    }

    /// A single value cannot be bound as an array.
    fn bind_batch_to(&mut self, pos: usize, batch_size: usize, params: &mut BatchParams) -> (r: Result<usize, BatchError>) {
        Err(BatchError::SingleValue { value_type: "&str".to_owned() })
    }

    fn update_batch_from_bind(&mut self, pos: usize, batch_size: usize, params: &BatchParams) -> (r: Result<usize, BatchError>) {
        Ok(pos + 1)
    }
}

impl ToBatchSql for String {
    open spec fn width() -> nat {
        1
    }

    proof fn lemma_width() {
    }

    open spec fn bind_ok(&self, pos: usize, pre: BatchParamsView, post: BatchParamsView, r: Result<usize, BatchError>) -> bool {
        r matches Err(BatchError::SingleValue { value_type }) && value_type@ == "String"@ && post == pre
    }

    open spec fn update_ok(&self, after: Self, pos: usize, batch_size: usize, params: BatchParamsView, r: Result<usize, BatchError>) -> bool {
        unchanged_update(*self, after, pos, r)
    }

    /// A single value cannot be bound as an array.
    fn bind_batch_to(&mut self, pos: usize, batch_size: usize, params: &mut BatchParams) -> (r: Result<usize, BatchError>) {
        Err(BatchError::SingleValue { value_type: "String".to_owned() })
    }

    fn update_batch_from_bind(&mut self, pos: usize, batch_size: usize, params: &BatchParams) -> (r: Result<usize, BatchError>) {
        Ok(pos + 1)
    }
}

} // verus!
