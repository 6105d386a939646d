use sibyl_batch::params::{OCI_IND_NOTNULL, OCI_IND_NULL, SQLT_CHR, SQLT_INT, SQLT_UIN};
use sibyl_batch::{BatchError, BatchParams, BindCall};

fn params(list: &[&str], batch_size: usize) -> BatchParams {
    let n: Vec<String> = list.iter().map(|s| s.to_string()).collect();
    let dups = vec![0u8; n.len()];
    BatchParams::new(n.len() as u32, &n, &dups, batch_size).unwrap()
}

#[test]
fn check_batch_len_accepts_the_batch_size() {
    let p = params(&["A"], 3);
    assert_eq!(p.check_batch_len(3, "i32"), Ok(()));
}

#[test]
fn check_batch_len_refuses_other_lengths() {
    let p = params(&["A"], 3);
    assert_eq!(
        p.check_batch_len(2, "f32"),
        Err(BatchError::LengthMismatch { param: "f32".to_string(), len: 2, batch_size: 3 })
    );
}

#[test]
fn bind_batch_records_order_stride_and_call() {
    let mut p = params(&["A", "B"], 2);
    p.bind_batch(1, SQLT_INT, 4);
    assert_eq!(
        p.bind_calls(),
        &vec![BindCall { idx: 1, position: 2, sql_type: SQLT_INT, element_size: 4, caller_storage: false }]
    );
}

#[test]
fn in_fixed_copies_the_values() {
    let mut p = params(&["A", "B"], 3);
    let data = [1u8, 2, 3, 4, 5, 6, 7];
    p.bind_batch_in_fixed(0, SQLT_UIN, &data, 2);
    assert_eq!(p.buffer(0), &vec![1u8, 2, 3, 4, 5, 6]);
    assert_eq!(p.null_indicators(0), &vec![OCI_IND_NOTNULL; 3]);
    assert_eq!(p.data_lengths(0), &vec![2u32; 3]);
    assert_eq!(p.get_fixed_data_at(0, 1, 2), Some(&[3u8, 4][..]));
    assert_eq!(p.get_fixed_data_at(0, 1, 4), None);
    assert_eq!(p.get_fixed_data_at(0, 3, 2), None);
    assert!(!p.is_null_at(0, 2));
    assert!(p.buffer(1).is_empty());
}

#[test]
fn str_in_packs_rows_in_longest_row_slots() {
    let mut p = params(&["TEXT"], 3);
    let rows: Vec<&[u8]> = vec![b"first", b"second_long_string", b"third"];
    p.bind_batch_str_in(0, &rows);
    let stride = "second_long_string".len();
    assert_eq!(p.buffer(0).len(), 3 * stride);
    assert_eq!(&p.buffer(0)[0..5], b"first");
    assert_eq!(&p.buffer(0)[5..stride], &vec![0u8; stride - 5][..]);
    assert_eq!(&p.buffer(0)[stride..2 * stride], b"second_long_string");
    assert_eq!(&p.buffer(0)[2 * stride..2 * stride + 5], b"third");
    assert_eq!(p.data_lengths(0), &vec![5u32, 18, 5]);
    assert_eq!(p.null_indicators(0), &vec![OCI_IND_NOTNULL; 3]);
    assert_eq!(p.get_str_data_at(0, 0), Some(&b"first"[..]));
    assert_eq!(p.get_str_data_at(0, 1), Some(&b"second_long_string"[..]));
    assert_eq!(p.get_str_data_at(0, 2), Some(&b"third"[..]));
    assert_eq!(
        p.bind_calls(),
        &vec![BindCall { idx: 0, position: 1, sql_type: SQLT_CHR, element_size: stride, caller_storage: false }]
    );
}

#[test]
fn str_in_empty_rows_are_null() {
    let mut p = params(&["TEXT"], 3);
    let rows: Vec<&[u8]> = vec![b"ab", b"", b"c"];
    p.bind_batch_str_in(0, &rows);
    assert_eq!(p.null_indicators(0), &vec![OCI_IND_NOTNULL, OCI_IND_NULL, OCI_IND_NOTNULL]);
    assert_eq!(p.data_lengths(0), &vec![2u32, 0, 1]);
    assert!(p.is_null_at(0, 1));
    assert_eq!(p.get_str_data_at(0, 1), Some(&b""[..]));
}

#[test]
fn str_in_all_empty_rows_get_one_byte_slots() {
    let mut p = params(&["TEXT"], 2);
    let rows: Vec<&[u8]> = vec![b"", b""];
    p.bind_batch_str_in(0, &rows);
    assert_eq!(p.buffer(0), &vec![0u8, 0]);
    assert_eq!(p.bind_calls()[0].element_size, 1);
}

#[test]
fn str_in_fewer_rows_than_the_batch() {
    let mut p = params(&["TEXT"], 3);
    let rows: Vec<&[u8]> = vec![b"xyz"];
    p.bind_batch_str_in(0, &rows);
    assert_eq!(p.buffer(0).len(), 9);
    assert_eq!(p.null_indicators(0), &vec![OCI_IND_NOTNULL; 3]);
    assert_eq!(p.data_lengths(0), &vec![3u32, 0, 0]);
}

#[test]
fn str_out_starts_null_with_capacity_lengths() {
    let mut p = params(&["OUT"], 2);
    p.bind_batch_str_out(0, 10);
    assert_eq!(p.buffer(0), &vec![0u8; 20]);
    assert_eq!(p.null_indicators(0), &vec![OCI_IND_NULL; 2]);
    assert_eq!(p.data_lengths(0), &vec![10u32; 2]);
    assert!(p.is_null_at(0, 0));
    assert_eq!(p.get_data_len_at(0, 1), 10);
}

#[test]
fn out_fixed_starts_null() {
    let mut p = params(&["OUT"], 3);
    p.bind_batch_out_fixed(0, SQLT_INT, 8);
    assert_eq!(p.buffer(0).len(), 0);
    assert_eq!(p.null_indicators(0), &vec![OCI_IND_NULL; 3]);
    assert_eq!(p.data_lengths(0), &vec![8u32; 3]);
}

#[test]
fn nullable_fixed_packs_values_and_nulls() {
    let mut p = params(&["N"], 3);
    let a = [1u8, 1];
    let c = [3u8, 3];
    let values: Vec<Option<&[u8]>> = vec![Some(&a), None, Some(&c)];
    p.bind_batch_nullable_fixed(0, SQLT_INT, 2, &values);
    assert_eq!(p.buffer(0), &vec![1u8, 1, 0, 0, 3, 3]);
    assert_eq!(p.null_indicators(0), &vec![OCI_IND_NOTNULL, OCI_IND_NULL, OCI_IND_NOTNULL]);
    assert_eq!(p.data_lengths(0), &vec![2u32, 0, 2]);
    assert!(p.is_null_at(0, 1));
    assert_eq!(p.get_fixed_data_at(0, 2, 2), Some(&[3u8, 3][..]));
}

#[test]
fn nullable_out_fixed_copies_initial_values() {
    let mut p = params(&["N"], 2);
    let init = [9u8, 8, 7, 6];
    p.bind_batch_nullable_out_fixed(0, SQLT_INT, 2, Some(&init));
    assert_eq!(p.buffer(0), &vec![9u8, 8, 7, 6]);
    assert_eq!(p.null_indicators(0), &vec![OCI_IND_NULL; 2]);
    assert_eq!(p.data_lengths(0), &vec![2u32; 2]);
    let mut q = params(&["N"], 2);
    q.bind_batch_nullable_out_fixed(0, SQLT_INT, 2, None);
    assert_eq!(q.buffer(0), &vec![0u8; 4]);
}

#[test]
fn rebinding_resizes_the_previous_buffer() {
    let mut p = params(&["N"], 2);
    let data = [1u8, 2, 3, 4];
    p.bind_batch_in_fixed(0, SQLT_UIN, &data, 2);
    p.bind_batch_str_out(0, 3);
    assert_eq!(p.buffer(0), &vec![1u8, 2, 3, 4, 0, 0]);
}

#[test]
fn getters_of_missing_rows() {
    let p = params(&["A"], 2);
    assert!(p.is_null_at(0, 0));
    assert!(p.is_null_at(5, 0));
    assert_eq!(p.get_data_len_at(0, 0), 0);
    assert_eq!(p.get_data_len_at(9, 9), 0);
    assert_eq!(p.get_str_data_at(0, 0), None);
    assert_eq!(p.get_str_data_at(7, 0), None);
    assert_eq!(p.get_fixed_data_at(0, 0, 4), None);
}

#[test]
fn swap_arrays_gives_back_the_arrays() {
    let mut p = params(&["A"], 2);
    p.bind_batch_str_out(0, 2);
    let (b, n, l) = p.swap_arrays(0, vec![b'h', b'i', b'x', 0], vec![0, -1], vec![2, 2]);
    assert_eq!(b, vec![0u8; 4]);
    assert_eq!(n, vec![OCI_IND_NULL; 2]);
    assert_eq!(l, vec![2u32; 2]);
    assert_eq!(p.get_str_data_at(0, 0), Some(&b"hi"[..]));
    assert!(p.is_null_at(0, 1));
}

#[test]
fn bind_leaves_other_placeholders_alone() {
    let mut p = params(&["A", "B"], 1);
    let rows: Vec<&[u8]> = vec![b"abc"];
    p.bind_batch_str_in(0, &rows);
    let data = [5u8];
    p.bind_batch_in_fixed(1, SQLT_UIN, &data, 1);
    assert_eq!(p.get_str_data_at(0, 0), Some(&b"abc"[..]));
    assert_eq!(p.get_fixed_data_at(1, 0, 1), Some(&[5u8][..]));
}
