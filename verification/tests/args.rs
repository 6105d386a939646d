use sibyl_batch::params::{OCI_IND_NOTNULL, OCI_IND_NULL, SQLT_BDOUBLE, SQLT_BFLOAT, SQLT_CHR, SQLT_INT, SQLT_UIN};
use sibyl_batch::value::native_is_little_endian;
use sibyl_batch::{BatchError, BatchParams, BindCall, RawValues, ToBatchSql};
use sibyl_batch::text_args::{out_text, out_text_stride};

fn params(list: &[&str], batch_size: usize) -> BatchParams {
    let n: Vec<String> = list.iter().map(|s| s.to_string()).collect();
    let dups = vec![0u8; n.len()];
    BatchParams::new(n.len() as u32, &n, &dups, batch_size).unwrap()
}

/// Puts the arrays of `idx` back after the client has written `values`
/// into them, marking `null_rows` NULL.
fn client_writes(p: &mut BatchParams, idx: usize, buf: Vec<u8>, nulls: Vec<i16>, lens: Vec<u32>) {
    let _ = p.swap_arrays(idx, buf, nulls, lens);
}

#[test]
fn native_byte_order_is_detected() {
    assert_eq!(native_is_little_endian(), 1u32.to_ne_bytes()[0] == 1);
}

#[test]
fn batch_insert_numeric_binds_native_bytes() {
    let mut p = params(&["NUM"], 3);
    let nums: &[i32] = &[101, 102, 103];
    let mut arg = nums;
    assert_eq!(arg.bind_batch_to(0, 3, &mut p), Ok(1));
    let mut want = Vec::new();
    for n in nums {
        want.extend_from_slice(&n.to_ne_bytes());
    }
    assert_eq!(p.buffer(0), &want);
    assert_eq!(p.null_indicators(0), &vec![OCI_IND_NOTNULL; 3]);
    assert_eq!(p.data_lengths(0), &vec![4u32; 3]);
    assert_eq!(p.bind_calls(), &vec![BindCall { idx: 0, position: 1, sql_type: SQLT_INT, element_size: 4, caller_storage: false }]);
}

#[test]
fn negative_and_wide_values_keep_their_bytes() {
    let mut p = params(&["A", "B", "C"], 2);
    let a: &[i64] = &[-1, i64::MIN];
    let b: &[u16] = &[0xBEEF, 7];
    let c: &[i8] = &[-128, 127];
    let mut args = (a, b, c);
    assert_eq!(args.bind_batch_to(0, 2, &mut p), Ok(3));
    let mut want = Vec::new();
    want.extend_from_slice(&(-1i64).to_ne_bytes());
    want.extend_from_slice(&i64::MIN.to_ne_bytes());
    assert_eq!(p.buffer(0), &want);
    let mut want_b = Vec::new();
    want_b.extend_from_slice(&0xBEEFu16.to_ne_bytes());
    want_b.extend_from_slice(&7u16.to_ne_bytes());
    assert_eq!(p.buffer(1), &want_b);
    assert_eq!(p.buffer(2), &vec![0x80u8, 0x7f]);
    assert_eq!(p.bind_calls()[1].sql_type, SQLT_UIN);
    assert_eq!(p.bind_calls()[2].element_size, 1);
}

#[test]
fn usize_values_take_the_pointer_size() {
    let mut p = params(&["A"], 1);
    let a: &[usize] = &[usize::MAX - 1];
    let mut arg = a;
    assert_eq!(arg.bind_batch_to(0, 1, &mut p), Ok(1));
    assert_eq!(p.buffer(0), &(usize::MAX - 1).to_ne_bytes().to_vec());
    assert_eq!(p.bind_calls()[0].element_size, std::mem::size_of::<usize>());
}

#[test]
fn batch_mismatched_lengths() {
    let mut p = params(&["NUM", "FLT"], 3);
    let nums: &[i32] = &[101, 102, 103];
    let flts: &[f32] = &[1.1, 2.2];
    let flt_bytes: Vec<u8> = flts.iter().flat_map(|v| v.to_ne_bytes()).collect();
    let raw = RawValues::new("f32", SQLT_BFLOAT, 4, flt_bytes).unwrap();
    let mut args = ((":num", nums), (":flt", raw));
    let res = args.bind_batch_to(0, 3, &mut p);
    assert!(res.is_err());
    assert_eq!(res, Err(BatchError::LengthMismatch { param: "f32".to_string(), len: 2, batch_size: 3 }));
    assert_eq!(p.bind_calls().len(), 1);
}

#[test]
fn batch_insert_numeric_with_floats_by_name() {
    let mut p = params(&["NUM", "FLT", "DBL"], 3);
    let nums: &[i32] = &[101, 102, 103];
    let flts: &[f32] = &[1.1, 2.2, 3.3];
    let dbls: &[f64] = &[1.11, 2.22, 3.33];
    let flt_bytes: Vec<u8> = flts.iter().flat_map(|v| v.to_ne_bytes()).collect();
    let dbl_bytes: Vec<u8> = dbls.iter().flat_map(|v| v.to_ne_bytes()).collect();
    let flt = RawValues::new("f32", SQLT_BFLOAT, 4, flt_bytes.clone()).unwrap();
    let dbl = RawValues::new("f64", SQLT_BDOUBLE, 8, dbl_bytes.clone()).unwrap();
    let mut args = ((":num", nums), (":flt", flt), (":dbl", dbl));
    assert_eq!(args.bind_batch_to(0, 3, &mut p), Ok(3));
    assert_eq!(p.buffer(1), &flt_bytes);
    assert_eq!(p.buffer(2), &dbl_bytes);
    assert_eq!(p.bind_calls()[1].sql_type, SQLT_BFLOAT);
    assert_eq!(p.bind_calls()[2].element_size, 8);
    assert_eq!(p.null_indicators(2), &vec![OCI_IND_NOTNULL; 3]);
}

#[test]
fn raw_values_need_whole_rows() {
    assert!(RawValues::new("f32", SQLT_BFLOAT, 4, vec![0u8; 6]).is_none());
    assert!(RawValues::new("f32", SQLT_BFLOAT, 0, vec![]).is_none());
    assert_eq!(RawValues::new("f32", SQLT_BFLOAT, 4, vec![0u8; 8]).unwrap().rows(), 2);
}

#[test]
fn planned_binds_keep_the_last_bind_of_each_placeholder() {
    let mut p = params(&["A", "B"], 2);
    let a: &[u8] = &[1, 2];
    let mut outs = [0u32, 0];
    let mut more = [0u16, 0];
    {
        let mut args = ((":b", &mut outs[..]), (":a", a));
        assert_eq!(args.bind_batch_to(0, 2, &mut p), Ok(1));
    }
    {
        let mut args = (":b", &mut more[..]);
        assert_eq!(args.bind_batch_to(0, 2, &mut p), Ok(2));
    }
    let plan = p.planned_binds();
    assert_eq!(plan.len(), 2);
    assert_eq!(plan[0].call.idx, 0);
    assert_eq!(plan[0].caller_array, None);
    assert_eq!(plan[1].call.idx, 1);
    assert_eq!(plan[1].call.element_size, 2);
    assert_eq!(plan[1].caller_array, Some(1));
}

#[test]
fn positional_argument_beyond_the_placeholders() {
    let mut p = params(&["A"], 1);
    let nums: &[u32] = &[1];
    let mut arg = nums;
    assert_eq!(arg.bind_batch_to(1, 1, &mut p), Err(BatchError::NoSuchPosition { pos: 1, count: 1 }));
}

#[test]
fn named_arguments_bind_at_their_placeholders() {
    let mut p = params(&["ID", "NAME"], 2);
    let ids: &[i32] = &[1, 2];
    let names: &[&str] = &["North", "South"];
    let mut args = ((":NAME", names), (":ID", ids));
    assert_eq!(args.bind_batch_to(0, 2, &mut p), Ok(1));
    assert_eq!(p.bind_calls()[0].idx, 1);
    assert_eq!(p.bind_calls()[0].sql_type, SQLT_CHR);
    assert_eq!(p.bind_calls()[1].idx, 0);
    assert_eq!(p.get_str_data_at(1, 1), Some(&b"South"[..]));
}

#[test]
fn named_argument_with_unknown_name() {
    let mut p = params(&["ID"], 1);
    let ids: &[i32] = &[1];
    let mut arg = (":city", ids);
    assert_eq!(
        arg.bind_batch_to(0, 1, &mut p),
        Err(BatchError::UnknownPlaceholder { name: "city".to_string() })
    );
}

#[test]
fn tuples_bind_positionally() {
    let mut p = params(&["A", "B", "C", "D"], 1);
    let a: &[u8] = &[1];
    let b: &[&str] = &["x"];
    let c: &[Option<i16>] = &[None];
    let d: &[String] = &["yz".to_string()];
    let mut args = (a, b, c, d);
    assert_eq!(args.bind_batch_to(0, 1, &mut p), Ok(4));
    let idxs: Vec<usize> = p.bind_calls().iter().map(|c| c.idx).collect();
    assert_eq!(idxs, vec![0, 1, 2, 3]);
    assert!(p.is_null_at(2, 0));
    assert_eq!(p.get_str_data_at(3, 0), Some(&b"yz"[..]));
}

#[test]
fn unit_moves_to_the_next_position() {
    let mut p = params(&["A"], 1);
    let mut u = ();
    assert_eq!(u.bind_batch_to(4, 1, &mut p), Ok(5));
    assert_eq!(u.update_batch_from_bind(4, 1, &p), Ok(5));
}

#[test]
fn single_values_are_refused() {
    let mut p = params(&["A"], 1);
    let mut v = 5i32;
    assert_eq!(
        v.bind_batch_to(0, 1, &mut p),
        Err(BatchError::SingleValue { value_type: "i32".to_string() })
    );
    let mut s = "text";
    assert_eq!(
        s.bind_batch_to(0, 1, &mut p),
        Err(BatchError::SingleValue { value_type: "&str".to_string() })
    );
    let mut t = String::from("text");
    assert_eq!(
        t.bind_batch_to(0, 1, &mut p),
        Err(BatchError::SingleValue { value_type: "String".to_string() })
    );
}

#[test]
fn batch_insert_nulls_marks_none_rows() {
    let mut p = params(&["NUM"], 3);
    let nums: &[Option<i32>] = &[Some(401), None, Some(403)];
    let mut arg = (":num", nums);
    assert_eq!(arg.bind_batch_to(0, 3, &mut p), Ok(1));
    assert_eq!(p.null_indicators(0), &vec![OCI_IND_NOTNULL, OCI_IND_NULL, OCI_IND_NOTNULL]);
    assert_eq!(p.data_lengths(0), &vec![4u32, 0, 4]);
    assert_eq!(p.get_fixed_data_at(0, 2, 4), Some(&403i32.to_ne_bytes()[..]));
    assert_eq!(&p.buffer(0)[4..8], &[0u8; 4]);
}

#[test]
fn option_strings_none_and_empty_are_null() {
    let mut p = params(&["T"], 3);
    let texts: &[Option<&str>] = &[Some("a"), None, Some("")];
    let mut arg = texts;
    assert_eq!(arg.bind_batch_to(0, 3, &mut p), Ok(1));
    assert_eq!(p.null_indicators(0), &vec![OCI_IND_NOTNULL, OCI_IND_NULL, OCI_IND_NULL]);
}

#[test]
fn batch_insert_returning_binds_the_caller_array() {
    let mut p = params(&["NUM", "ID"], 3);
    let nums: &[i32] = &[201, 202, 203];
    let mut ids = [0i64, 0, 0];
    {
        let mut args = ((":num", nums), (":id", &mut ids[..]));
        assert_eq!(args.bind_batch_to(0, 3, &mut p), Ok(2));
    }
    assert_eq!(p.null_indicators(1), &vec![OCI_IND_NULL; 3]);
    assert_eq!(p.data_lengths(1), &vec![8u32; 3]);
    assert_eq!(p.buffer(1).len(), 0);
    assert_eq!(
        p.bind_calls()[1],
        BindCall { idx: 1, position: 2, sql_type: SQLT_INT, element_size: 8, caller_storage: true }
    );
    // The client writes the returned values straight into the caller's array.
    ids = [7, 8, 9];
    {
        let mut arg = (":id", &mut ids[..]);
        assert_eq!(arg.update_batch_from_bind(0, 3, &p), Ok(2));
    }
    assert_eq!(ids, [7, 8, 9]);
}

#[test]
fn nullable_out_values_become_none_or_some() {
    let mut p = params(&["V"], 3);
    let mut vals = [Some(5u32), None, Some(6)];
    {
        let mut arg = &mut vals[..];
        assert_eq!(arg.bind_batch_to(0, 3, &mut p), Ok(1));
    }
    let mut want = Vec::new();
    want.extend_from_slice(&5u32.to_ne_bytes());
    want.extend_from_slice(&0u32.to_ne_bytes());
    want.extend_from_slice(&6u32.to_ne_bytes());
    assert_eq!(p.buffer(0), &want);
    assert_eq!(p.null_indicators(0), &vec![OCI_IND_NULL; 3]);
    let mut buf = Vec::new();
    buf.extend_from_slice(&0u32.to_ne_bytes());
    buf.extend_from_slice(&11u32.to_ne_bytes());
    buf.extend_from_slice(&12u32.to_ne_bytes());
    client_writes(&mut p, 0, buf, vec![OCI_IND_NULL, OCI_IND_NOTNULL, OCI_IND_NOTNULL], vec![4, 4, 4]);
    {
        let mut arg = &mut vals[..];
        assert_eq!(arg.update_batch_from_bind(0, 3, &p), Ok(1));
    }
    assert_eq!(vals, [None, Some(11), Some(12)]);
}

#[test]
fn string_out_slots_follow_the_capacity() {
    let mut p = params(&["S"], 2);
    let mut outs = vec![String::with_capacity(40), String::new()];
    {
        let mut arg = &mut outs[..];
        assert_eq!(arg.bind_batch_to(0, 2, &mut p), Ok(1));
    }
    let stride = p.bind_calls()[0].element_size;
    assert!(stride >= 40);
    assert_eq!(p.buffer(0).len(), 2 * stride);
    assert_eq!(p.null_indicators(0), &vec![OCI_IND_NULL; 2]);
}

#[test]
fn string_out_without_strings_gets_default_slots() {
    let mut p = params(&["S"], 0);
    let mut outs: Vec<String> = Vec::new();
    let mut arg = &mut outs[..];
    assert_eq!(arg.bind_batch_to(0, 0, &mut p), Ok(1));
    assert_eq!(p.bind_calls()[0].element_size, 256);
}

#[test]
fn string_out_update_copies_text_back() {
    let mut p = params(&["S"], 3);
    let mut outs = vec![String::with_capacity(8), String::with_capacity(8), "old".to_string()];
    {
        let mut arg = &mut outs[..];
        assert_eq!(arg.bind_batch_to(0, 3, &mut p), Ok(1));
    }
    let stride = p.bind_calls()[0].element_size;
    let mut buf = vec![0u8; 3 * stride];
    buf[0..5].copy_from_slice(b"hello");
    buf[stride..stride + 3].copy_from_slice("\u{e9}t".as_bytes());
    client_writes(&mut p, 0, buf, vec![OCI_IND_NOTNULL, OCI_IND_NOTNULL, OCI_IND_NULL], vec![5, 3, 0]);
    {
        let mut arg = &mut outs[..];
        assert_eq!(arg.update_batch_from_bind(0, 3, &p), Ok(1));
    }
    assert_eq!(outs[0], "hello");
    assert_eq!(outs[1], "\u{e9}t");
    assert_eq!(outs[2], "");
}

#[test]
fn string_out_update_refuses_invalid_text() {
    let mut p = params(&["S"], 1);
    let mut outs = vec![String::with_capacity(4)];
    {
        let mut arg = &mut outs[..];
        assert_eq!(arg.bind_batch_to(0, 1, &mut p), Ok(1));
    }
    let stride = p.bind_calls()[0].element_size;
    let mut buf = vec![0u8; stride];
    buf[0] = 0xff;
    client_writes(&mut p, 0, buf, vec![OCI_IND_NOTNULL], vec![1]);
    let mut arg = &mut outs[..];
    assert_eq!(arg.update_batch_from_bind(0, 1, &p), Err(BatchError::InvalidText { row: 0 }));
}

#[test]
fn batch_reuse_statement_with_new_params() {
    for (batch, rows) in [(2usize, vec![601i32, 602]), (3, vec![603, 604, 605])] {
        let mut p = params(&["NUM"], batch);
        let mut arg = (":num", &rows[..]);
        assert_eq!(arg.bind_batch_to(0, batch, &mut p), Ok(1));
        assert_eq!(p.buffer(0).len(), 4 * batch);
    }
}

#[test]
fn batch_size_one() {
    let mut p = params(&["NUM"], 1);
    let nums: &[i32] = &[501];
    let mut arg = (":num", nums);
    assert_eq!(arg.bind_batch_to(0, 1, &mut p), Ok(1));
    assert_eq!(p.get_fixed_data_at(0, 0, 4), Some(&501i32.to_ne_bytes()[..]));
}

#[test]
fn batch_size_zero_binds_empty_arrays() {
    let mut p = params(&["NUM"], 0);
    let nums: &[i32] = &[];
    let mut arg = (":num", nums);
    assert_eq!(arg.bind_batch_to(0, 0, &mut p), Ok(1));
    assert!(p.buffer(0).is_empty());
}

#[test]
fn out_values_are_left_to_the_client() {
    let mut p = params(&["V"], 2);
    let mut vals = [3i16, -4];
    let mut buf = Vec::new();
    buf.extend_from_slice(&5i16.to_ne_bytes());
    buf.extend_from_slice(&6i16.to_ne_bytes());
    client_writes(&mut p, 0, buf, vec![OCI_IND_NOTNULL; 2], vec![2, 2]);
    {
        let mut arg = &mut vals[..];
        assert_eq!(arg.bind_batch_to(0, 2, &mut p), Ok(1));
        assert_eq!(arg.update_batch_from_bind(0, 2, &p), Ok(1));
    }
    assert_eq!(vals, [3, -4]);
    assert_eq!(p.buffer(0).len(), 4);
}

#[test]
fn tuple_stops_at_the_first_refusal() {
    let mut p = params(&["A", "B"], 2);
    let a: &[u8] = &[1, 2];
    let b: &[u8] = &[1];
    let c: &[u8] = &[1, 2];
    let mut args = (a, b, c);
    assert_eq!(
        args.bind_batch_to(0, 2, &mut p),
        Err(BatchError::LengthMismatch { param: "u8".to_string(), len: 1, batch_size: 2 })
    );
    assert_eq!(p.bind_calls().len(), 1);
}

#[test]
fn text_round_trip_through_named_strings() {
    let mut p = params(&["TEXT"], 3);
    let texts = vec!["first".to_string(), String::new(), "\u{e9}\u{e8}".to_string()];
    let mut arg = (":text", &texts[..]);
    assert_eq!(arg.bind_batch_to(0, 3, &mut p), Ok(1));
    assert_eq!(p.get_str_data_at(0, 0), Some(&b"first"[..]));
    assert_eq!(p.get_str_data_at(0, 1), Some(&b""[..]));
    assert!(p.is_null_at(0, 1));
    assert_eq!(p.get_str_data_at(0, 2), Some("\u{e9}\u{e8}".as_bytes()));
}

#[test]
fn string_out_null_row_clears_the_string() {
    let mut p = params(&["S"], 2);
    let mut outs = vec!["zzzz".to_string(), String::with_capacity(4)];
    {
        let mut arg = &mut outs[..];
        assert_eq!(arg.bind_batch_to(0, 2, &mut p), Ok(1));
    }
    let stride = p.bind_calls()[0].element_size;
    let mut buf = vec![0u8; 2 * stride];
    buf[0..2].copy_from_slice(b"ab");
    buf[stride..stride + 2].copy_from_slice(b"cd");
    client_writes(&mut p, 0, buf, vec![OCI_IND_NULL, OCI_IND_NOTNULL], vec![2, 2]);
    {
        let mut arg = &mut outs[..];
        assert_eq!(arg.update_batch_from_bind(0, 2, &p), Ok(1));
    }
    assert_eq!(outs[0], "");
    assert_eq!(outs[1], "cd");
}

#[test]
fn string_out_text_is_cut_at_the_capacity() {
    let mut p = params(&["S"], 2);
    let mut outs = vec![String::new(), String::from("zzzzzzzz")];
    let caps: Vec<usize> = outs.iter().map(|s| s.capacity()).collect();
    {
        let mut arg = &mut outs[..];
        assert_eq!(arg.bind_batch_to(0, 2, &mut p), Ok(1));
    }
    let stride = p.bind_calls()[0].element_size;
    assert_eq!(stride, caps[1].max(1));
    let mut buf = vec![0u8; 2 * stride];
    buf[0..2].copy_from_slice(b"ab");
    buf[stride..stride + 2].copy_from_slice(b"cd");
    client_writes(&mut p, 0, buf, vec![OCI_IND_NOTNULL, OCI_IND_NOTNULL], vec![2, 2]);
    {
        let mut arg = &mut outs[..];
        assert_eq!(arg.update_batch_from_bind(0, 2, &p), Ok(1));
    }
    assert_eq!(outs[0], "");
    assert_eq!(outs[0].capacity(), 0);
    assert_eq!(outs[1], "cd");
    assert_eq!(outs[1].capacity(), caps[1]);
}

#[test]
fn string_out_update_keeps_the_capacity() {
    let mut p = params(&["S"], 1);
    let mut outs = vec![String::with_capacity(16)];
    let cap = outs[0].capacity();
    {
        let mut arg = &mut outs[..];
        assert_eq!(arg.bind_batch_to(0, 1, &mut p), Ok(1));
    }
    let stride = p.bind_calls()[0].element_size;
    let mut buf = vec![0u8; stride];
    buf[0..3].copy_from_slice(b"abc");
    client_writes(&mut p, 0, buf, vec![OCI_IND_NOTNULL], vec![3]);
    {
        let mut arg = &mut outs[..];
        assert_eq!(arg.update_batch_from_bind(0, 1, &p), Ok(1));
    }
    assert_eq!(outs[0], "abc");
    assert_eq!(outs[0].capacity(), cap);
}

#[test]
fn out_text_stride_values() {
    assert_eq!(out_text_stride(&[], 4), Some(256));
    assert_eq!(out_text_stride(&[0], 4), Some(1));
    assert_eq!(out_text_stride(&[0, 0, 0], 1), Some(1));
    assert_eq!(out_text_stride(&[3, 8, 5], 2), Some(8));
    assert_eq!(out_text_stride(&[u32::MAX as usize, 1], 1), Some(u32::MAX as usize));
    assert_eq!(out_text_stride(&[u32::MAX as usize + 1], 1), None);
    assert_eq!(out_text_stride(&[usize::MAX, 1], 1), None);
    assert_eq!(out_text_stride(&[8], usize::MAX), None);
    assert_eq!(out_text_stride(&[], usize::MAX), None);
}

#[test]
fn out_text_cuts_and_checks() {
    assert_eq!(out_text(b"hello", 3, 0), Ok("hel"));
    assert_eq!(out_text(b"hello", 10, 0), Ok("hello"));
    assert_eq!(out_text(b"hello", 0, 0), Ok(""));
    assert_eq!(out_text("\u{e9}".as_bytes(), 1, 2), Err(BatchError::InvalidText { row: 2 }));
    assert_eq!(out_text("\u{e9}".as_bytes(), 2, 2), Ok("\u{e9}"));
    assert_eq!(out_text(&[0xff, b'a'], 5, 7), Err(BatchError::InvalidText { row: 7 }));
}

#[test]
fn tuple_keeps_the_binds_before_a_refusal() {
    let mut p = params(&["A", "B", "C"], 2);
    let a: &[u8] = &[1, 2];
    let b: &[u16] = &[1];
    let c: &[u8] = &[5, 6];
    let mut args = (a, b, c);
    assert_eq!(
        args.bind_batch_to(0, 2, &mut p),
        Err(BatchError::LengthMismatch { param: "u16".to_string(), len: 1, batch_size: 2 })
    );
    assert_eq!(p.buffer(0), &vec![1u8, 2]);
    assert_eq!(p.bind_calls().len(), 1);
    assert_eq!(p.buffer(2).len(), 0);
}
