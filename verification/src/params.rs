use vstd::prelude::*;
use crate::error::BatchError;
use crate::name::{ascii_upper_name, stripped_name, to_uppercase, upper_name};
use crate::value::one_in_native_order;
use crate::pack::{resized, packed_rows, resize_zeroed, copy_into, pack_rows};

verus! {

/// NULL indicator of a row whose value is NULL.
pub const OCI_IND_NULL: i16 = -1;
/// NULL indicator of a row that holds a value.
pub const OCI_IND_NOTNULL: i16 = 0;
/// External type code of character data.
pub const SQLT_CHR: u16 = 1;
/// External type code of signed integers.
pub const SQLT_INT: u16 = 3;
/// External type code of IEEE single precision floats.
pub const SQLT_BFLOAT: u16 = 21;
/// External type code of IEEE double precision floats.
pub const SQLT_BDOUBLE: u16 = 22;
/// External type code of unsigned integers.
pub const SQLT_UIN: u16 = 68;

/// One array bind that the database client is to perform: the arrays of
/// placeholder `idx` are bound at (one-based) `position` with the external
/// type `sql_type`; each row occupies `element_size` bytes of the value
/// buffer.  With `caller_storage` the values are not in the value buffer
/// of the parameters but in the caller's own array (an OUT argument that
/// the client writes into directly).
#[derive(Clone, Copy, Debug, PartialEq, Eq)]
pub struct BindCall {
    pub idx: usize,
    pub position: u32,
    pub sql_type: u16,
    pub element_size: usize,
    pub caller_storage: bool,
}

/// Manages parameter bindings for batch (array) DML execution.
///
/// For each placeholder of the statement it keeps a contiguous value buffer
/// (one slot of `element_size` bytes per row), an array of NULL indicators
/// and an array of data lengths, one element per row of the batch.
pub struct BatchParams {
    /// Placeholder names, each at most once.
    names: Vec<String>,
    /// `slots[k]` is the placeholder index of `names[k]`.
    slots: Vec<usize>,
    /// NULL indicators, one array per placeholder.
    nulls: Vec<Vec<i16>>,
    /// Data lengths, one array per placeholder.
    data_lens: Vec<Vec<u32>>,
    /// Placeholders in the order in which they were bound.
    bind_order: Vec<u16>,
    /// Value buffers, one per placeholder.
    buffers: Vec<Vec<u8>>,
    /// Stride of each value buffer.
    element_sizes: Vec<usize>,
    /// Number of rows in this batch.
    batch_size: usize,
    /// The binds that the client is to perform, in order.
    calls: Vec<BindCall>,
    /// Whether this machine stores numbers with the low byte first.
    little_endian: bool,
    /// The two bytes in which this machine stores the number 1 as a `u16`.
    native_one: Ghost<(u8, u8)>,
}

/// The abstract state of a `BatchParams`.
pub struct BatchParamsView {
    /// Placeholder name (without colon) to placeholder index.
    pub placeholders: Map<Seq<char>, usize>,
    pub nulls: Seq<Seq<i16>>,
    pub data_lens: Seq<Seq<u32>>,
    pub buffers: Seq<Seq<u8>>,
    pub element_sizes: Seq<usize>,
    pub bind_order: Seq<u16>,
    pub calls: Seq<BindCall>,
    pub batch_size: usize,
    pub little_endian: bool,
}

/// The placeholder map that the bind information of a statement gives: the
/// names of the first `k` binds, in order, each that is not a duplicate
/// mapped to its index (a later equal name replaces an earlier one).
pub open spec fn bind_info_map(names: Seq<Seq<char>>, dups: Seq<u8>, k: int) -> Map<Seq<char>, usize>
    decreases k,
{
    if k <= 0 {
        Map::empty()
    } else {
        let m = bind_info_map(names, dups, k - 1);
        if dups[k - 1] == 0 {
            m.insert(names[k - 1], (k - 1) as usize)
        } else {
            m
        }
    }
}

/// The map from names to slots held by two parallel sequences.
pub open spec fn names_map(names: Seq<String>, slots: Seq<usize>) -> Map<Seq<char>, usize> {
    Map::new(
        |n: Seq<char>| exists|k: int| 0 <= k < names.len() && #[trigger] names[k]@ == n,
        |n: Seq<char>| slots[choose|k: int| 0 <= k < names.len() && #[trigger] names[k]@ == n],
    )
}

/// No name occurs twice.
pub open spec fn distinct_names(names: Seq<String>) -> bool {
    forall|i: int, j: int|
        0 <= i < names.len() && 0 <= j < names.len() && i != j ==> #[trigger] names[i]@ != #[trigger] names[j]@
}

impl View for BatchParams {
    type V = BatchParamsView;

    closed spec fn view(&self) -> BatchParamsView {
        BatchParamsView {
            placeholders: names_map(self.names@, self.slots@),
            nulls: self.nulls@.map_values(|v: Vec<i16>| v@),
            data_lens: self.data_lens@.map_values(|v: Vec<u32>| v@),
            buffers: self.buffers@.map_values(|v: Vec<u8>| v@),
            element_sizes: self.element_sizes@,
            bind_order: self.bind_order@,
            calls: self.calls@,
            batch_size: self.batch_size,
            little_endian: self.little_endian,
        }
    }
}

impl BatchParamsView {
    /// The number of placeholders.
    pub open spec fn count(self) -> nat {
        self.nulls.len()
    }

    /// The per-placeholder arrays are there for every placeholder and every
    /// placeholder index in the map is in range.
    pub open spec fn consistent(self) -> bool {
        &&& self.data_lens.len() == self.count()
        &&& self.buffers.len() == self.count()
        &&& self.element_sizes.len() == self.count()
        &&& forall|n: Seq<char>| #[trigger] self.placeholders.contains_key(n) ==> self.placeholders[n] < self.count()
    }
}

/// The state of a fresh `BatchParams` for `num_binds` placeholders.
pub open spec fn initial_view(
    num_binds: nat,
    names: Seq<Seq<char>>,
    dups: Seq<u8>,
    batch_size: usize,
    little_endian: bool,
) -> BatchParamsView {
    BatchParamsView {
        placeholders: bind_info_map(names, dups, names.len() as int),
        nulls: Seq::new(num_binds, |i: int| Seq::<i16>::empty()),
        data_lens: Seq::new(num_binds, |i: int| Seq::<u32>::empty()),
        buffers: Seq::new(num_binds, |i: int| Seq::<u8>::empty()),
        element_sizes: Seq::new(num_binds, |i: int| 0usize),
        bind_order: Seq::empty(),
        calls: Seq::empty(),
        batch_size,
        little_endian,
    }
}

/// What `index_of` gives for a name: the placeholder of the name without
/// its colon, else that of its upper-case form, else `None`.
pub open spec fn lookup_placeholder(placeholders: Map<Seq<char>, usize>, name: Seq<char>) -> Option<usize> {
    let s = stripped_name(name);
    if placeholders.contains_key(s) {
        Some(placeholders[s])
    } else if placeholders.contains_key(upper_name(s)) {
        Some(placeholders[upper_name(s)])
    } else {
        None
    }
}

impl BatchParams {
    /// The well-formedness of a `BatchParams`.
    pub closed spec fn wf(&self) -> bool {
        &&& self.names.len() == self.slots.len()
        &&& distinct_names(self.names@)
        &&& forall|k: int| 0 <= k < self.slots.len() ==> #[trigger] self.slots[k] < self.nulls.len()
        &&& self@.consistent()
        &&& self.native_one@ == (1u8, 0u8) || self.native_one@ == (0u8, 1u8)
        &&& self.little_endian == (self.native_one@.0 == 1)
    }

    /// The two bytes in which this machine stores the number 1 as a `u16`,
    /// as they were read when the parameters were made.
    pub closed spec fn native_one(&self) -> (u8, u8) {
        self.native_one@
    }

    /// A well-formed `BatchParams` records the byte order in which the
    /// machine stores 1 as a `u16`.
    pub proof fn lemma_wf_byte_order(&self)
        requires
            self.wf(),
        ensures
            self@.little_endian == (self.native_one().0 == 1),
            self.native_one() == (1u8, 0u8) || self.native_one() == (0u8, 1u8),
    {
    }

    /// A well-formed `BatchParams` has consistent arrays.
    pub proof fn lemma_wf_consistent(&self)
        requires
            self.wf(),
        ensures
            self@.consistent(),
    {
    }

    proof fn lemma_names_map_at(names: Seq<String>, slots: Seq<usize>, k: int)
        requires
            distinct_names(names),
            0 <= k < names.len(),
        ensures
            names_map(names, slots).contains_key(names[k]@),
            names_map(names, slots)[names[k]@] == slots[k],
    {
        let n = names[k]@;
        assert(names[k]@ == n);
        let c = choose|j: int| 0 <= j < names.len() && #[trigger] names[j]@ == n;
        assert(c == k);
    }

    /// The position of `key` among `names`, if it is there.
    fn find_name(names: &Vec<String>, key: &String) -> (r: Option<usize>)
        ensures
            r matches Some(k) ==> k < names.len() && names@[k as int]@ == key@,
            r is None ==> forall|k: int| 0 <= k < names.len() ==> #[trigger] names@[k]@ != key@,
    {
        let mut k: usize = 0;
        while k < names.len()
            invariant
                k <= names.len(),
                forall|j: int| 0 <= j < k ==> #[trigger] names@[j]@ != key@,
            decreases names.len() - k,
        {
            if names[k] == *key {
                return Some(k);
            }
            k += 1;
        }
        None
    }

    /// Maps `name` to `slot`, replacing what it mapped to before.
    fn put_name(names: &mut Vec<String>, slots: &mut Vec<usize>, name: String, slot: usize)
        requires
            old(names).len() == old(slots).len(),
            distinct_names(old(names)@),
        ensures
            final(names).len() == final(slots).len(),
            distinct_names(final(names)@),
            names_map(final(names)@, final(slots)@) == names_map(old(names)@, old(slots)@).insert(name@, slot),
            forall|k: int| 0 <= k < final(slots).len() ==> (#[trigger] final(slots)@[k] == slot
                || exists|j: int| 0 <= j < old(slots).len() && old(slots)@[j] == final(slots)@[k]),
    {
        let ghost m0 = names_map(names@, slots@);
        match Self::find_name(names, &name) {
            Some(k) => {
                slots.set(k, slot);
                proof {
                    let m1 = names_map(names@, slots@);
                    assert forall|n: Seq<char>| #[trigger] m1.contains_key(n) <==> m0.insert(name@, slot).contains_key(n) by {
                        if n == name@ {
                            Self::lemma_names_map_at(names@, slots@, k as int);
                        }
                    }
                    assert forall|n: Seq<char>| #[trigger] m1.contains_key(n) implies m1[n] == m0.insert(name@, slot)[n] by {
                        let j = choose|j: int| 0 <= j < names.len() && #[trigger] names@[j]@ == n;
                        Self::lemma_names_map_at(names@, slots@, j);
                        Self::lemma_names_map_at(names@, old(slots)@, j);
                    }
                    assert(m1 =~= m0.insert(name@, slot));
                }
            },
            None => {
                let ghost old_names = names@;
                names.push(name);
                slots.push(slot);
                proof {
                    let m1 = names_map(names@, slots@);
                    let last = names.len() - 1;
                    assert(names@[last]@ == name@);
                    assert forall|i: int, j: int|
                        0 <= i < names@.len() && 0 <= j < names@.len() && i != j implies #[trigger] names@[i]@ != #[trigger] names@[j]@ by {
                        if i != last && j != last {
                            assert(names@[i] == old_names[i] && names@[j] == old_names[j]);
                        }
                    }
                    assert forall|n: Seq<char>| #[trigger] m1.contains_key(n) <==> m0.insert(name@, slot).contains_key(n) by {
                        if n == name@ {
                            Self::lemma_names_map_at(names@, slots@, last);
                        } else if m0.contains_key(n) {
                            let j = choose|j: int| 0 <= j < old_names.len() && #[trigger] old_names[j]@ == n;
                            assert(names@[j] == old_names[j]);
                        } else if m1.contains_key(n) {
                            let j = choose|j: int| 0 <= j < names@.len() && #[trigger] names@[j]@ == n;
                            assert(j != last);
                            assert(names@[j] == old_names[j]);
                        }
                    }
                    assert forall|n: Seq<char>| #[trigger] m1.contains_key(n) implies m1[n] == m0.insert(name@, slot)[n] by {
                        let j = choose|j: int| 0 <= j < names.len() && #[trigger] names@[j]@ == n;
                        Self::lemma_names_map_at(names@, slots@, j);
                        if j != last {
                            assert(names@[j] == old_names[j]);
                            Self::lemma_names_map_at(old_names, old(slots)@, j);
                        }
                    }
                    assert(m1 =~= m0.insert(name@, slot));
                }
            },
        }
    }
}


impl BatchParams {
    /// Sets up the arrays for a statement with `num_binds` placeholders,
    /// given the names of its binds and, for each, whether it is a duplicate
    /// of an earlier one (`dups[i] != 0`).  Returns `None` when the statement
    /// has no placeholders.
    pub fn new(num_binds: u32, bind_names: &[String], dups: &[u8], batch_size: usize) -> (r: Option<Self>)
        requires
            bind_names@.len() == dups@.len(),
            bind_names@.len() <= num_binds,
        ensures
            r is None <==> num_binds == 0,
            r matches Some(p) ==> p.wf() && p@ == initial_view(
                num_binds as nat,
                bind_names@.map_values(|s: String| s@),
                dups@,
                batch_size,
                p@.little_endian,
            ),
            r matches Some(p) ==> p@.little_endian == (p.native_one().0 == 1),
            r matches Some(p) ==> p.native_one() == (1u8, 0u8) || p.native_one() == (0u8, 1u8),
    {
        if num_binds == 0 {
            return None;
        }
        let n = num_binds as usize;
        let ghost names_seq = bind_names@.map_values(|s: String| s@);
        let mut names: Vec<String> = Vec::new();
        let mut slots: Vec<usize> = Vec::new();
        let mut i: usize = 0;
        while i < bind_names.len()
            invariant
                i <= bind_names@.len(),
                bind_names@.len() == dups@.len(),
                bind_names@.len() <= n,
                names_seq == bind_names@.map_values(|s: String| s@),
                names.len() == slots.len(),
                distinct_names(names@),
                forall|k: int| 0 <= k < slots.len() ==> #[trigger] slots@[k] < i,
                names_map(names@, slots@) == bind_info_map(names_seq, dups@, i as int),
            decreases bind_names@.len() - i,
        {
            if dups[i] == 0 {
                let name = bind_names[i].clone();
                let ghost before = slots@;
                Self::put_name(&mut names, &mut slots, name, i);
                proof {
                    assert forall|k: int| 0 <= k < slots.len() implies #[trigger] slots@[k] < i + 1 by {
                        if slots@[k] != i {
                            let j = choose|j: int| 0 <= j < before.len() && before[j] == slots@[k];
                            assert(before[j] < i);
                        }
                    }
                }
            }
            proof {
                assert(names_seq[i as int] == bind_names@[i as int]@);
            }
            i += 1;
        }
        let mut nulls: Vec<Vec<i16>> = Vec::new();
        let mut data_lens: Vec<Vec<u32>> = Vec::new();
        let mut buffers: Vec<Vec<u8>> = Vec::new();
        let mut element_sizes: Vec<usize> = Vec::new();
        let mut j: usize = 0;
        while j < n
            invariant
                j <= n,
                nulls.len() == j,
                data_lens.len() == j,
                buffers.len() == j,
                element_sizes.len() == j,
                forall|k: int| 0 <= k < j ==> (#[trigger] nulls@[k])@ == Seq::<i16>::empty(),
                forall|k: int| 0 <= k < j ==> (#[trigger] data_lens@[k])@ == Seq::<u32>::empty(),
                forall|k: int| 0 <= k < j ==> (#[trigger] buffers@[k])@ == Seq::<u8>::empty(),
                forall|k: int| 0 <= k < j ==> #[trigger] element_sizes@[k] == 0,
            decreases n - j,
        {
            nulls.push(Vec::new());
            data_lens.push(Vec::new());
            buffers.push(Vec::new());
            element_sizes.push(0);
            j += 1;
        }
        let (lo, hi) = one_in_native_order();
        let p = BatchParams {
            names,
            slots,
            nulls,
            data_lens,
            bind_order: Vec::new(),
            buffers,
            element_sizes,
            batch_size,
            calls: Vec::new(),
            little_endian: lo == 1,
            native_one: Ghost((lo, hi)),
        };
        proof {
            let v = p@;
            let iv = initial_view(num_binds as nat, names_seq, dups@, batch_size, p.little_endian);
            assert(v.nulls =~= iv.nulls);
            assert(v.data_lens =~= iv.data_lens);
            assert(v.buffers =~= iv.buffers);
            assert(v.element_sizes =~= iv.element_sizes);
            assert(v.bind_order =~= iv.bind_order);
            assert(v.calls =~= iv.calls);
            assert forall|nm: Seq<char>| #[trigger] v.placeholders.contains_key(nm) implies v.placeholders[nm] < v.count() by {
                let k = choose|k: int| 0 <= k < p.names@.len() && #[trigger] p.names@[k]@ == nm;
                Self::lemma_names_map_at(p.names@, p.slots@, k);
            }
        }
        Some(p)
    }

    /// The placeholder index of `key` (a name without colon), if any.
    fn find_placeholder(&self, key: &String) -> (r: Option<usize>)
        requires
            self.wf(),
        ensures
            r is Some <==> self@.placeholders.contains_key(key@),
            r matches Some(ix) ==> ix == self@.placeholders[key@],
    {
        match Self::find_name(&self.names, key) {
            Some(k) => {
                proof {
                    Self::lemma_names_map_at(self.names@, self.slots@, k as int);
                }
                Some(self.slots[k])
            },
            None => None,
        }
    }

    /// Returns the placeholder index for the given name; a leading colon is
    /// ignored, and a name that is not found is looked up once more in
    /// upper case.
    pub fn index_of(&self, name: &str) -> (r: Result<usize, BatchError>)
        requires
            self.wf(),
        ensures
            r is Ok ==> r == Ok::<usize, BatchError>(lookup_placeholder(self@.placeholders, name@).unwrap()),
            r matches Ok(ix) ==> ix < self@.count(),
            r is Ok <==> lookup_placeholder(self@.placeholders, name@) is Some,
            r is Err ==> (r matches Err(BatchError::UnknownPlaceholder { name: n }) && n@ == stripped_name(name@)),
    {
        let name = Self::strip_colon(name);
        let key = name.to_owned();
        if let Some(ix) = self.find_placeholder(&key) {
            Ok(ix)
        } else {
            let upper = match ascii_upper_name(name) {
                Some(u) => u,
                None => to_uppercase(name),
            };
            if let Some(ix) = self.find_placeholder(&upper) {
                Ok(ix)
            } else {
                Err(BatchError::UnknownPlaceholder { name: key })
            }
        }
    }

    /// Validates that the provided array length matches the batch size.
    pub fn check_batch_len(&self, len: usize, param_name: &str) -> (r: Result<(), BatchError>)
        ensures
            r is Ok <==> len == self@.batch_size,
            r is Err ==> (r matches Err(BatchError::LengthMismatch { param, len: l, batch_size: b })
                && param@ == param_name@ && l == len && b == self@.batch_size),
    {
        if len != self.batch_size {
            Err(BatchError::LengthMismatch { param: param_name.to_owned(), len, batch_size: self.batch_size })
        } else {
            Ok(())
        }
    }

    /// Whether numbers are stored with the low byte first.
    pub fn little_endian(&self) -> (r: bool)
        ensures
            r == self@.little_endian,
    {
        self.little_endian
    }

    /// Returns the batch size.
    pub fn batch_size(&self) -> (r: usize)
        ensures
            r == self@.batch_size,
    {
        self.batch_size
    }
}

/// The bind call recorded for placeholder `idx`.
pub open spec fn bind_call(idx: usize, sql_type: u16, element_size: usize) -> BindCall {
    bind_call_into(idx, sql_type, element_size, false)
}

/// The bind call recorded for placeholder `idx`, into the caller's storage
/// or into the value buffer.
pub open spec fn bind_call_into(idx: usize, sql_type: u16, element_size: usize, caller_storage: bool) -> BindCall {
    BindCall { idx, position: (idx + 1) as u32, sql_type, element_size, caller_storage }
}

/// `n` copies of `v`.
pub open spec fn uniform<T>(n: nat, v: T) -> Seq<T> {
    Seq::new(n, |i: int| v)
}

/// The length of the longest row (0 when there is none).
pub open spec fn max_row_len(rows: Seq<Seq<u8>>) -> nat
    decreases rows.len(),
{
    if rows.len() == 0 {
        0
    } else {
        let m = max_row_len(rows.drop_last());
        if rows.last().len() > m {
            rows.last().len()
        } else {
            m
        }
    }
}

/// The slot size of packed text rows: the longest row, and at least 1.
pub open spec fn text_stride(rows: Seq<Seq<u8>>) -> nat {
    if max_row_len(rows) == 0 {
        1
    } else {
        max_row_len(rows)
    }
}

/// NULL indicators of text rows: an empty row is NULL, rows past the end
/// are not.
pub open spec fn text_nulls(rows: Seq<Seq<u8>>, n: nat) -> Seq<i16> {
    Seq::new(n, |i: int| if i < rows.len() && rows[i].len() == 0 { OCI_IND_NULL } else { OCI_IND_NOTNULL })
}

/// Data lengths of text rows: the length of each non-empty row, else 0.
pub open spec fn text_lens(rows: Seq<Seq<u8>>, n: nat) -> Seq<u32> {
    Seq::new(n, |i: int| if i < rows.len() && rows[i].len() != 0 { rows[i].len() as u32 } else { 0u32 })
}

/// The bytes of optional values: a value's bytes, or nothing for `None`.
pub open spec fn option_rows(values: Seq<Option<Seq<u8>>>) -> Seq<Seq<u8>> {
    values.map_values(|v: Option<Seq<u8>>| match v {
        Some(b) => b,
        None => Seq::empty(),
    })
}

/// NULL indicators of optional values: `None` and rows past the end are NULL.
pub open spec fn option_nulls(values: Seq<Option<Seq<u8>>>, n: nat) -> Seq<i16> {
    Seq::new(n, |i: int| if i < values.len() && values[i] is Some { OCI_IND_NOTNULL } else { OCI_IND_NULL })
}

/// Data lengths of optional values: `element_size` for a value, else 0.
pub open spec fn option_lens(values: Seq<Option<Seq<u8>>>, n: nat, element_size: usize) -> Seq<u32> {
    Seq::new(n, |i: int| if i < values.len() && values[i] is Some { element_size as u32 } else { 0u32 })
}

/// The state after text rows have been bound at placeholder `idx`: the
/// rows packed into slots of `text_stride(rows)` bytes, with their NULL
/// indicators and lengths.
pub open spec fn text_bound(pre: BatchParamsView, idx: usize, rows: Seq<Seq<u8>>) -> BatchParamsView {
    let stride = text_stride(rows);
    let bs = pre.batch_size;
    pre.with_arrays(
        idx as int,
        packed_rows(resized(pre.buffers[idx as int], (stride * bs) as nat), rows, stride),
        text_nulls(rows, bs as nat),
        text_lens(rows, bs as nat),
    ).after_bind(idx, SQLT_CHR, stride as usize)
}

impl BatchParamsView {
    /// The state with the arrays of placeholder `idx` replaced.
    pub open spec fn with_arrays(self, idx: int, buf: Seq<u8>, nulls: Seq<i16>, lens: Seq<u32>) -> BatchParamsView {
        BatchParamsView {
            buffers: self.buffers.update(idx, buf),
            nulls: self.nulls.update(idx, nulls),
            data_lens: self.data_lens.update(idx, lens),
            ..self
        }
    }

    /// The state after placeholder `idx` has been bound with the given
    /// external type and stride.
    pub open spec fn after_bind(self, idx: usize, sql_type: u16, element_size: usize) -> BatchParamsView {
        self.after_bind_into(idx, sql_type, element_size, false)
    }

    /// The state after placeholder `idx` has been bound, into the caller's
    /// storage or into the value buffer.
    pub open spec fn after_bind_into(self, idx: usize, sql_type: u16, element_size: usize, caller_storage: bool) -> BatchParamsView {
        BatchParamsView {
            bind_order: self.bind_order.push(idx as u16),
            element_sizes: self.element_sizes.update(idx as int, element_size),
            calls: self.calls.push(bind_call_into(idx, sql_type, element_size, caller_storage)),
            ..self
        }
    }
}

impl BatchParams {
    /// Replaces the arrays of placeholder `idx`.
    fn set_arrays(&mut self, idx: usize, buf: Vec<u8>, nulls: Vec<i16>, lens: Vec<u32>)
        requires
            old(self).wf(),
            idx < old(self)@.count(),
        ensures
            final(self).wf(),
            final(self)@ == old(self)@.with_arrays(idx as int, buf@, nulls@, lens@),
    {
        let ghost b = buf@;
        let ghost nl = nulls@;
        let ghost ls = lens@;
        self.buffers.set(idx, buf);
        self.nulls.set(idx, nulls);
        self.data_lens.set(idx, lens);
        proof {
            let v = self@;
            let w = old(self)@.with_arrays(idx as int, b, nl, ls);
            assert(v.buffers =~= w.buffers);
            assert(v.nulls =~= w.nulls);
            assert(v.data_lens =~= w.data_lens);
        }
    }

    /// A copy of the value buffer of placeholder `idx`.
    fn buffer_copy(&self, idx: usize) -> (r: Vec<u8>)
        requires
            self.wf(),
            idx < self@.count(),
        ensures
            r@ == self@.buffers[idx as int],
    {
        let r = self.buffers[idx].clone();
        proof {
            assert(r@ =~= self.buffers@[idx as int]@);
        }
        r
    }

    /// Records the bind of placeholder `idx`: its place in the bind order,
    /// its stride and the bind call for the client.
    pub fn bind_batch(&mut self, idx: usize, sql_type: u16, element_size: usize)
        requires
            old(self).wf(),
            idx < old(self)@.count(),
        ensures
            final(self).wf(),
            final(self)@ == old(self)@.after_bind(idx, sql_type, element_size),
    {
        self.record_bind(idx, sql_type, element_size, false)
    }

    /// Records a bind of placeholder `idx`, into the caller's storage or
    /// into the value buffer.
    fn record_bind(&mut self, idx: usize, sql_type: u16, element_size: usize, caller_storage: bool)
        requires
            old(self).wf(),
            idx < old(self)@.count(),
        ensures
            final(self).wf(),
            final(self)@ == old(self)@.after_bind_into(idx, sql_type, element_size, caller_storage),
    {
        proof {
            assert(self@.count() == self.nulls.len());
        }
        let order = #[verifier::truncate] (idx as u16);
        let position = #[verifier::truncate] ((idx + 1) as u32);
        self.bind_order.push(order);
        self.element_sizes.set(idx, element_size);
        self.calls.push(BindCall { idx, position, sql_type, element_size, caller_storage });
        proof {
            assert(self@.element_sizes =~= old(self)@.after_bind_into(idx, sql_type, element_size, caller_storage).element_sizes);
        }
    }

    /// Binds an array of fixed-size IN values: `data` holds the values of
    /// all rows, `element_size` bytes each; they are copied into the value
    /// buffer and every row is marked NOT NULL with length `element_size`.
    pub fn bind_batch_in_fixed(&mut self, idx: usize, sql_type: u16, data: &[u8], element_size: usize)
        requires
            old(self).wf(),
            idx < old(self)@.count(),
            element_size * old(self)@.batch_size <= usize::MAX,
            element_size * old(self)@.batch_size <= data@.len(),
            element_size <= u32::MAX,
        ensures
            final(self).wf(),
            final(self)@ == old(self)@.with_arrays(
                idx as int,
                data@.take(element_size * old(self)@.batch_size),
                uniform(old(self)@.batch_size as nat, OCI_IND_NOTNULL),
                uniform(old(self)@.batch_size as nat, element_size as u32),
            ).after_bind(idx, sql_type, element_size),
    {
        let total = element_size * self.batch_size;
        let mut buf = self.buffer_copy(idx);
        resize_zeroed(&mut buf, total);
        copy_into(&mut buf, 0, &data[0..total]);
        let nulls = vec![OCI_IND_NOTNULL; self.batch_size];
        let lens = vec![#[verifier::truncate] (element_size as u32); self.batch_size];
        proof {
            assert(buf@ =~= data@.take(total as int));
            assert(nulls@ =~= uniform(self.batch_size as nat, OCI_IND_NOTNULL));
            assert(lens@ =~= uniform(self.batch_size as nat, element_size as u32));
        }
        self.set_arrays(idx, buf, nulls, lens);
        self.bind_batch(idx, sql_type, element_size)
    }
}

impl BatchParamsView {
    /// Whether row `row` of placeholder `idx` is NULL; a row that does not
    /// exist counts as NULL.
    pub open spec fn null_at(self, idx: int, row: int) -> bool {
        if 0 <= idx < self.nulls.len() && 0 <= row < self.nulls[idx].len() {
            self.nulls[idx][row] == OCI_IND_NULL
        } else {
            true
        }
    }

    /// The data length of row `row` of placeholder `idx`; 0 for a row that
    /// does not exist.
    pub open spec fn data_len_at(self, idx: int, row: int) -> nat {
        if 0 <= idx < self.data_lens.len() && 0 <= row < self.data_lens[idx].len() {
            self.data_lens[idx][row] as nat
        } else {
            0
        }
    }

    /// The stride of placeholder `idx`; 0 when there is no such placeholder.
    pub open spec fn stride_of(self, idx: int) -> nat {
        if 0 <= idx < self.element_sizes.len() {
            self.element_sizes[idx] as nat
        } else {
            0
        }
    }

    /// The bytes of row `row` of placeholder `idx`, `len` bytes from the
    /// start of its slot; `None` when the placeholder has no stride yet or
    /// the bytes are not all within its buffer.
    pub open spec fn slot_bytes(self, idx: int, row: int, len: nat) -> Option<Seq<u8>> {
        let es = self.stride_of(idx);
        if es == 0 || !(0 <= idx < self.buffers.len()) || row < 0 {
            None
        } else if row * es + len <= self.buffers[idx].len() {
            Some(self.buffers[idx].subrange(row * es, row * es + len))
        } else {
            None
        }
    }

    /// The text that row `row` of placeholder `idx` holds: its data length
    /// in bytes from the start of its slot.
    pub open spec fn str_data_at(self, idx: int, row: int) -> Option<Seq<u8>> {
        self.slot_bytes(idx, row, self.data_len_at(idx, row))
    }

    /// The value that row `row` of placeholder `idx` holds, for values of
    /// `size` bytes: its whole slot, if the stride is `size`.
    pub open spec fn fixed_data_at(self, idx: int, row: int, size: nat) -> Option<Seq<u8>> {
        if self.stride_of(idx) == size {
            self.slot_bytes(idx, row, size)
        } else {
            None
        }
    }
}

impl BatchParams {
    /// The length of the longest of the rows (0 when there is none).
    pub fn max_len(rows: &[&[u8]]) -> (m: usize)
        ensures
            m == max_row_len(rows@.map_values(|r: &[u8]| r@)),
            forall|i: int| 0 <= i < rows@.len() ==> (#[trigger] rows@[i])@.len() <= m,
    {
        let ghost rs = rows@.map_values(|r: &[u8]| r@);
        let mut m: usize = 0;
        let mut i: usize = 0;
        while i < rows.len()
            invariant
                i <= rows@.len(),
                rs == rows@.map_values(|r: &[u8]| r@),
                m == max_row_len(rs.take(i as int)),
                forall|j: int| 0 <= j < i ==> (#[trigger] rows@[j])@.len() <= m,
            decreases rows@.len() - i,
        {
            proof {
                assert(rs.take(i + 1).drop_last() =~= rs.take(i as int));
                assert(rs.take(i + 1).last() == rows@[i as int]@);
            }
            if rows[i].len() > m {
                m = rows[i].len();
            }
            i += 1;
        }
        proof {
            assert(rs.take(rows@.len() as int) =~= rs);
        }
        m
    }

    /// Binds an array of text IN values.  The rows are packed into the
    /// value buffer in slots as long as the longest row (at least 1 byte);
    /// an empty row is NULL.
    pub fn bind_batch_str_in(&mut self, idx: usize, strings: &[&[u8]])
        requires
            old(self).wf(),
            idx < old(self)@.count(),
            strings@.len() <= old(self)@.batch_size,
            text_stride(strings@.map_values(|r: &[u8]| r@)) * old(self)@.batch_size <= usize::MAX,
            text_stride(strings@.map_values(|r: &[u8]| r@)) <= u32::MAX,
        ensures
            final(self).wf(),
            final(self)@ == text_bound(old(self)@, idx, strings@.map_values(|r: &[u8]| r@)),
    {
        let ghost rows = strings@.map_values(|r: &[u8]| r@);
        let m = Self::max_len(strings);
        let max_len: usize = if m == 0 { 1 } else { m };
        let bs = self.batch_size;
        let total = max_len * bs;
        let mut buf = self.buffer_copy(idx);
        resize_zeroed(&mut buf, total);
        let ghost base = buf@;
        pack_rows(&mut buf, strings, max_len, bs);
        let mut nulls = vec![OCI_IND_NOTNULL; bs];
        let mut lens = vec![0u32; bs];
        let mut i: usize = 0;
        while i < strings.len()
            invariant
                i <= strings@.len(),
                strings@.len() <= bs,
                rows == strings@.map_values(|r: &[u8]| r@),
                nulls@ == Seq::new(bs as nat, |k: int| if k < i && rows[k].len() == 0 { OCI_IND_NULL } else { OCI_IND_NOTNULL }),
                lens@ == Seq::new(bs as nat, |k: int| if k < i && rows[k].len() != 0 { rows[k].len() as u32 } else { 0u32 }),
            decreases strings@.len() - i,
        {
            let len = strings[i].len();
            if len == 0 {
                nulls.set(i, OCI_IND_NULL);
            } else {
                lens.set(i, #[verifier::truncate] (len as u32));
            }
            proof {
                assert(rows[i as int] == strings@[i as int]@);
                assert(nulls@ =~= Seq::new(bs as nat, |k: int| if k < i + 1 && rows[k].len() == 0 { OCI_IND_NULL } else { OCI_IND_NOTNULL }));
                assert(lens@ =~= Seq::new(bs as nat, |k: int| if k < i + 1 && rows[k].len() != 0 { rows[k].len() as u32 } else { 0u32 }));
            }
            i += 1;
        }
        proof {
            assert(nulls@ =~= text_nulls(rows, bs as nat));
            assert(lens@ =~= text_lens(rows, bs as nat));
        }
        self.set_arrays(idx, buf, nulls, lens);
        self.bind_batch(idx, SQLT_CHR, max_len)
    }

    /// Binds a text buffer for OUT values: each row gets a slot of
    /// `capacity` bytes; every row starts NULL with length `capacity`.
    pub fn bind_batch_str_out(&mut self, idx: usize, capacity: usize)
        requires
            old(self).wf(),
            idx < old(self)@.count(),
            capacity * old(self)@.batch_size <= usize::MAX,
            capacity <= u32::MAX,
        ensures
            final(self).wf(),
            final(self)@ == old(self)@.with_arrays(
                idx as int,
                resized(old(self)@.buffers[idx as int], (capacity * old(self)@.batch_size) as nat),
                uniform(old(self)@.batch_size as nat, OCI_IND_NULL),
                uniform(old(self)@.batch_size as nat, capacity as u32),
            ).after_bind(idx, SQLT_CHR, capacity),
    {
        let total = capacity * self.batch_size;
        let mut buf = self.buffer_copy(idx);
        resize_zeroed(&mut buf, total);
        let nulls = vec![OCI_IND_NULL; self.batch_size];
        let lens = vec![#[verifier::truncate] (capacity as u32); self.batch_size];
        proof {
            assert(nulls@ =~= uniform(self.batch_size as nat, OCI_IND_NULL));
            assert(lens@ =~= uniform(self.batch_size as nat, capacity as u32));
        }
        self.set_arrays(idx, buf, nulls, lens);
        self.bind_batch(idx, SQLT_CHR, capacity)
    }

    /// Binds fixed-size OUT values that the client writes straight into the
    /// caller's own array, `element_size` bytes per row: the value buffer is
    /// left as it is, every row starts NULL with length `element_size`, and
    /// the bind call is recorded as one into the caller's storage.
    pub fn bind_batch_out_fixed(&mut self, idx: usize, sql_type: u16, element_size: usize)
        requires
            old(self).wf(),
            idx < old(self)@.count(),
            element_size <= u32::MAX,
        ensures
            final(self).wf(),
            final(self)@ == old(self)@.with_arrays(
                idx as int,
                old(self)@.buffers[idx as int],
                uniform(old(self)@.batch_size as nat, OCI_IND_NULL),
                uniform(old(self)@.batch_size as nat, element_size as u32),
            ).after_bind_into(idx, sql_type, element_size, true),
    {
        let nulls = vec![OCI_IND_NULL; self.batch_size];
        let lens = vec![#[verifier::truncate] (element_size as u32); self.batch_size];
        proof {
            assert(nulls@ =~= uniform(self.batch_size as nat, OCI_IND_NULL));
            assert(lens@ =~= uniform(self.batch_size as nat, element_size as u32));
        }
        let ghost nl = nulls@;
        let ghost ls = lens@;
        self.nulls.set(idx, nulls);
        self.data_lens.set(idx, lens);
        proof {
            let w = old(self)@.with_arrays(idx as int, old(self)@.buffers[idx as int], nl, ls);
            assert(self@.buffers =~= w.buffers);
            assert(self@.nulls =~= w.nulls);
            assert(self@.data_lens =~= w.data_lens);
        }
        self.record_bind(idx, sql_type, element_size, true)
    }

    /// Binds an array of nullable fixed-size IN values: each value's
    /// `element_size` bytes are copied into its row's slot; a `None` row is
    /// NULL with length 0.
    pub fn bind_batch_nullable_fixed(&mut self, idx: usize, sql_type: u16, element_size: usize, values: &[Option<&[u8]>])
        requires
            old(self).wf(),
            idx < old(self)@.count(),
            values@.len() <= old(self)@.batch_size,
            element_size * old(self)@.batch_size <= usize::MAX,
            element_size <= u32::MAX,
            forall|i: int| 0 <= i < values@.len() && (#[trigger] values@[i]) is Some ==> values@[i]->0@.len() == element_size,
        ensures
            final(self).wf(),
            ({
                let vals = values@.map_values(|o: Option<&[u8]>| match o { Some(b) => Some(b@), None => None });
                let bs = old(self)@.batch_size;
                final(self)@ == old(self)@.with_arrays(
                    idx as int,
                    packed_rows(resized(old(self)@.buffers[idx as int], (element_size * bs) as nat), option_rows(vals), element_size as nat),
                    option_nulls(vals, bs as nat),
                    option_lens(vals, bs as nat, element_size),
                ).after_bind(idx, sql_type, element_size)
            }),
    {
        let ghost vals = values@.map_values(|o: Option<&[u8]>| match o { Some(b) => Some(b@), None => None });
        let bs = self.batch_size;
        let total = element_size * bs;
        let empty: &[u8] = &[];
        let mut rows: Vec<&[u8]> = Vec::new();
        let mut nulls = vec![OCI_IND_NULL; bs];
        let mut lens = vec![0u32; bs];
        let mut i: usize = 0;
        while i < values.len()
            invariant
                i <= values@.len(),
                values@.len() <= bs,
                empty@.len() == 0,
                vals == values@.map_values(|o: Option<&[u8]>| match o { Some(b) => Some(b@), None => None }),
                forall|k: int| 0 <= k < values@.len() && (#[trigger] values@[k]) is Some ==> values@[k]->0@.len() == element_size,
                rows@.len() == i,
                forall|k: int| 0 <= k < i ==> (#[trigger] rows@[k])@ == option_rows(vals)[k],
                nulls@ == Seq::new(bs as nat, |k: int| if k < i && vals[k] is Some { OCI_IND_NOTNULL } else { OCI_IND_NULL }),
                lens@ == Seq::new(bs as nat, |k: int| if k < i && vals[k] is Some { element_size as u32 } else { 0u32 }),
            decreases values@.len() - i,
        {
            match values[i] {
                Some(v) => {
                    rows.push(v);
                    nulls.set(i, OCI_IND_NOTNULL);
                    lens.set(i, #[verifier::truncate] (element_size as u32));
                },
                None => {
                    rows.push(empty);
                },
            }
            proof {
                assert(nulls@ =~= Seq::new(bs as nat, |k: int| if k < i + 1 && vals[k] is Some { OCI_IND_NOTNULL } else { OCI_IND_NULL }));
                assert(lens@ =~= Seq::new(bs as nat, |k: int| if k < i + 1 && vals[k] is Some { element_size as u32 } else { 0u32 }));
            }
            i += 1;
        }
        let mut buf = self.buffer_copy(idx);
        resize_zeroed(&mut buf, total);
        proof {
            assert forall|k: int| 0 <= k < rows@.len() implies (#[trigger] rows@[k])@.len() <= element_size by {
                assert(rows@[k]@ == option_rows(vals)[k]);
            }
        }
        pack_rows(&mut buf, rows.as_slice(), element_size, bs);
        proof {
            assert(rows@.map_values(|r: &[u8]| r@) =~= option_rows(vals));
            assert(nulls@ =~= option_nulls(vals, bs as nat));
            assert(lens@ =~= option_lens(vals, bs as nat, element_size));
        }
        self.set_arrays(idx, buf, nulls, lens);
        self.bind_batch(idx, sql_type, element_size)
    }

    /// Binds a buffer for nullable fixed-size OUT values, optionally filled
    /// first with the bytes of all rows from `init_data`; every row starts
    /// NULL with length `element_size`.
    pub fn bind_batch_nullable_out_fixed(&mut self, idx: usize, sql_type: u16, element_size: usize, init_data: Option<&[u8]>)
        requires
            old(self).wf(),
            idx < old(self)@.count(),
            element_size * old(self)@.batch_size <= usize::MAX,
            element_size <= u32::MAX,
            init_data matches Some(d) ==> element_size * old(self)@.batch_size <= d@.len(),
        ensures
            final(self).wf(),
            ({
                let total = element_size * old(self)@.batch_size;
                let buf = match init_data {
                    Some(d) => d@.take(total),
                    None => resized(old(self)@.buffers[idx as int], total as nat),
                };
                final(self)@ == old(self)@.with_arrays(
                    idx as int,
                    buf,
                    uniform(old(self)@.batch_size as nat, OCI_IND_NULL),
                    uniform(old(self)@.batch_size as nat, element_size as u32),
                ).after_bind(idx, sql_type, element_size)
            }),
    {
        let total = element_size * self.batch_size;
        let mut buf = self.buffer_copy(idx);
        resize_zeroed(&mut buf, total);
        match init_data {
            Some(d) => {
                copy_into(&mut buf, 0, &d[0..total]);
                proof {
                    assert(buf@ =~= d@.take(total as int));
                }
            },
            None => {},
        }
        let nulls = vec![OCI_IND_NULL; self.batch_size];
        let lens = vec![#[verifier::truncate] (element_size as u32); self.batch_size];
        proof {
            assert(nulls@ =~= uniform(self.batch_size as nat, OCI_IND_NULL));
            assert(lens@ =~= uniform(self.batch_size as nat, element_size as u32));
        }
        self.set_arrays(idx, buf, nulls, lens);
        self.bind_batch(idx, sql_type, element_size)
    }
}

impl BatchParams {
    /// Returns the null indicator for the given row in the given parameter
    /// slot; a row that does not exist counts as NULL.
    pub fn is_null_at(&self, idx: usize, row: usize) -> (r: bool)
        ensures
            r == self@.null_at(idx as int, row as int),
    {
        if idx < self.nulls.len() && row < self.nulls[idx].len() {
            self.nulls[idx][row] == OCI_IND_NULL
        } else {
            true
        }
    }

    /// Returns the data length for the given row and parameter slot; 0 for
    /// a row that does not exist.
    pub fn get_data_len_at(&self, idx: usize, row: usize) -> (r: usize)
        ensures
            r == self@.data_len_at(idx as int, row as int),
    {
        if idx < self.data_lens.len() && row < self.data_lens[idx].len() {
            self.data_lens[idx][row] as usize
        } else {
            0
        }
    }

    /// The `len` bytes at the start of the slot of `row`.
    fn slot(&self, idx: usize, row: usize, len: usize) -> (r: Option<&[u8]>)
        ensures
            r matches Some(b) ==> self@.slot_bytes(idx as int, row as int, len as nat) == Some(b@),
            r is None ==> self@.slot_bytes(idx as int, row as int, len as nat) is None,
    {
        let es = if idx < self.element_sizes.len() { self.element_sizes[idx] } else { 0 };
        if es == 0 || idx >= self.buffers.len() {
            return None;
        }
        let buf = self.buffers[idx].as_slice();
        let blen = buf.len();
        proof {
            assert(self@.buffers[idx as int] == buf@);
            assert(self@.stride_of(idx as int) == es);
        }
        let start = match row.checked_mul(es) {
            Some(s) => s,
            None => {
                return None;
            },
        };
        let end = match start.checked_add(len) {
            Some(e) => e,
            None => {
                return None;
            },
        };
        if end <= buf.len() {
            let r = vstd::slice::slice_subrange(buf, start, end);
            Some(r)
        } else {
            None
        }
    }

    /// Returns the bytes of the text in the given row of the given
    /// parameter: its data length in bytes from the start of its slot.
    pub fn get_str_data_at(&self, idx: usize, row: usize) -> (r: Option<&[u8]>)
        ensures
            r matches Some(b) ==> self@.str_data_at(idx as int, row as int) == Some(b@),
            r is None ==> self@.str_data_at(idx as int, row as int) is None,
    {
        let len = self.get_data_len_at(idx, row);
        self.slot(idx, row, len)
    }

    /// Returns the bytes of the fixed-size value (of `size` bytes) in the
    /// given row of the given parameter, if the parameter's stride is `size`.
    pub fn get_fixed_data_at(&self, idx: usize, row: usize, size: usize) -> (r: Option<&[u8]>)
        ensures
            r matches Some(b) ==> self@.fixed_data_at(idx as int, row as int, size as nat) == Some(b@),
            r is None ==> self@.fixed_data_at(idx as int, row as int, size as nat) is None,
    {
        let es = if idx < self.element_sizes.len() { self.element_sizes[idx] } else { 0 };
        if es == 0 || es != size {
            return None;
        }
        self.slot(idx, row, size)
    }

    /// The binds that the client is to perform, in the order they were made.
    pub fn bind_calls(&self) -> (r: &Vec<BindCall>)
        ensures
            r@ == self@.calls,
    {
        &self.calls
    }

    /// The value buffer of placeholder `idx`.
    pub fn buffer(&self, idx: usize) -> (r: &Vec<u8>)
        requires
            self.wf(),
            idx < self@.count(),
        ensures
            r@ == self@.buffers[idx as int],
    {
        &self.buffers[idx]
    }

    /// The NULL indicators of placeholder `idx`.
    pub fn null_indicators(&self, idx: usize) -> (r: &Vec<i16>)
        requires
            self.wf(),
            idx < self@.count(),
        ensures
            r@ == self@.nulls[idx as int],
    {
        &self.nulls[idx]
    }

    /// The data lengths of placeholder `idx`.
    pub fn data_lengths(&self, idx: usize) -> (r: &Vec<u32>)
        requires
            self.wf(),
            idx < self@.count(),
        ensures
            r@ == self@.data_lens[idx as int],
    {
        &self.data_lens[idx]
    }

    /// The number of placeholders.
    pub fn placeholder_count(&self) -> (r: usize)
        ensures
            r == self@.count(),
    {
        self.nulls.len()
    }
}

impl BatchParams {
    /// Replaces the value buffer, NULL indicators and data lengths of
    /// placeholder `idx` and gives back the ones it had.  The client takes
    /// the arrays out for the execution (it reads and writes them in
    /// place) and puts them back afterwards.
    pub fn swap_arrays(&mut self, idx: usize, buf: Vec<u8>, nulls: Vec<i16>, lens: Vec<u32>) -> (r: (Vec<u8>, Vec<i16>, Vec<u32>))
        requires
            old(self).wf(),
            idx < old(self)@.count(),
        ensures
            final(self).wf(),
            final(self)@ == old(self)@.with_arrays(idx as int, buf@, nulls@, lens@),
            r.0@ == old(self)@.buffers[idx as int],
            r.1@ == old(self)@.nulls[idx as int],
            r.2@ == old(self)@.data_lens[idx as int],
    {
        let old_buf = self.buffer_copy(idx);
        let old_nulls = self.nulls[idx].clone();
        let old_lens = self.data_lens[idx].clone();
        proof {
            assert(old_nulls@ =~= self@.nulls[idx as int]);
            assert(old_lens@ =~= self@.data_lens[idx as int]);
        }
        self.set_arrays(idx, buf, nulls, lens);
        (old_buf, old_nulls, old_lens)
    }
}
} // verus!
