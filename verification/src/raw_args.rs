use vstd::prelude::*;
use crate::args::{unchanged_update, ToBatchSql};
use crate::error::BatchError;
use crate::params::{uniform, BatchParams, BatchParamsView, OCI_IND_NOTNULL};

verus! {

/// An IN argument given as the bytes of its values, `element_size` bytes
/// per row in the layout the client reads, with the external type code
/// `sql_type`.  It carries values whose encoding is made elsewhere (such as
/// floating-point numbers), so that they can be bound by name and in tuples
/// like the other arguments.
pub struct RawValues {
    name: String,
    sql_type: u16,
    element_size: usize,
    bytes: Vec<u8>,
}

impl RawValues {
    #[verifier::type_invariant]
    spec fn whole_rows(&self) -> bool {
        self.element_size > 0 && self.bytes@.len() % (self.element_size as nat) == 0
    }

    /// The name of the values' type, used in error messages.
    pub closed spec fn spec_name(&self) -> Seq<char> {
        self.name@
    }

    /// The external type code of the values.
    pub closed spec fn spec_sql_type(&self) -> u16 {
        self.sql_type
    }

    /// The number of bytes of each value.
    pub closed spec fn spec_element_size(&self) -> usize {
        self.element_size
    }

    /// The bytes of all values, one after the other.
    pub closed spec fn spec_bytes(&self) -> Seq<u8> {
        self.bytes@
    }

    /// The number of values.
    pub open spec fn spec_rows(&self) -> nat {
        self.spec_bytes().len() / (self.spec_element_size() as nat)
    }

    /// The values in `bytes`, `element_size` bytes each; `None` when the
    /// bytes are not a whole number of values of a positive size.
    pub fn new(name: &str, sql_type: u16, element_size: usize, bytes: Vec<u8>) -> (r: Option<RawValues>)
        ensures
            r is Some <==> element_size > 0 && bytes@.len() % (element_size as nat) == 0,
            r matches Some(v) ==> {
                &&& v.spec_name() == name@
                &&& v.spec_sql_type() == sql_type
                &&& v.spec_element_size() == element_size
                &&& v.spec_bytes() == bytes@
            },
    {
        if element_size == 0 || bytes.len() % element_size != 0 {
            None
        } else {
            Some(RawValues { name: name.to_owned(), sql_type, element_size, bytes })
        }
    }

    /// The number of values.
    pub fn rows(&self) -> (r: usize)
        ensures
            r == self.spec_rows(),
    {
        proof {
            use_type_invariant(self);
        }
        self.bytes.len() / self.element_size
    }
}

impl ToBatchSql for RawValues {
    open spec fn width() -> nat {
        1
    }

    proof fn lemma_width() {
    }

    open spec fn bind_ok(&self, pos: usize, pre: BatchParamsView, post: BatchParamsView, r: Result<usize, BatchError>) -> bool {
        if self.spec_rows() != pre.batch_size {
            &&& r matches Err(BatchError::LengthMismatch { param, len, batch_size: b })
            &&& param@ == self.spec_name() && len == self.spec_rows() && b == pre.batch_size
            &&& post == pre
        } else if pos >= pre.count() {
            &&& r matches Err(BatchError::NoSuchPosition { pos: p, count: c })
            &&& p == pos && c == pre.count()
            &&& post == pre
        } else if self.spec_element_size() > u32::MAX {
            &&& r matches Err(BatchError::BufferTooLarge { param })
            &&& param@ == self.spec_name()
            &&& post == pre
        } else {
            &&& r == Ok::<usize, BatchError>((pos + 1) as usize)
            &&& post == pre.with_arrays(
                pos as int,
                self.spec_bytes(),
                uniform(pre.batch_size as nat, OCI_IND_NOTNULL),
                uniform(pre.batch_size as nat, self.spec_element_size() as u32),
            ).after_bind(pos, self.spec_sql_type(), self.spec_element_size())
        }
    }

    open spec fn update_ok(&self, after: Self, pos: usize, batch_size: usize, params: BatchParamsView, r: Result<usize, BatchError>) -> bool {
        unchanged_update(*self, after, pos, r)
    }

    /// Batch-binds the values as IN parameters at `pos`.
    fn bind_batch_to(&mut self, pos: usize, batch_size: usize, params: &mut BatchParams) -> (r: Result<usize, BatchError>) {
        proof {
            use_type_invariant(&*self);
        }
        let rows = self.rows();
        params.check_batch_len(rows, self.name.as_str())?;
        let count = params.placeholder_count();
        if pos >= count {
            return Err(BatchError::NoSuchPosition { pos, count });
        }
        let size = self.element_size;
        if size > 0xffff_ffff {
            return Err(BatchError::BufferTooLarge { param: self.name.clone() });
        }
        let n = self.bytes.len();
        proof {
            assert(n == size * rows) by (nonlinear_arith)
                requires
                    size > 0,
                    n % size == 0,
                    rows == n / size,
            ;
            assert(rows == params@.batch_size);
            assert(size * params@.batch_size <= usize::MAX);
            assert(self.bytes@.take((size * rows) as int) =~= self.bytes@);
        }
        params.bind_batch_in_fixed(pos, self.sql_type, self.bytes.as_slice(), size);
        Ok(pos + 1)
    }

    /// An IN argument is left as it is.
    fn update_batch_from_bind(&mut self, pos: usize, batch_size: usize, params: &BatchParams) -> (r: Result<usize, BatchError>) {
        Ok(pos + 1)
    }
}

} // verus!
