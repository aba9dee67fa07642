use tblgen::error::TableGenError;
use tblgen::foreign::{ForeignGraph, RawValue};
use tblgen::init::TypedInit;
use tblgen::record::Record;

fn graph(values: Vec<RawValue>) -> ForeignGraph {
    ForeignGraph::new(values).expect("the graph's handles must be in range")
}

#[test]
fn bit_zero_and_one_decode() {
    let mut db = graph(vec![RawValue::Bit(0), RawValue::Bit(1)]);
    assert_eq!(TypedInit::from_raw(&mut db, 0), Ok(TypedInit::Bit(0)));
    assert_eq!(TypedInit::from_raw(&mut db, 1), Ok(TypedInit::Bit(1)));
}

#[test]
fn bit_out_of_range_fails() {
    let mut db = graph(vec![RawValue::Bit(2), RawValue::Bit(-1)]);
    assert_eq!(
        TypedInit::from_raw(&mut db, 0),
        Err(TableGenError::InvalidBitRange)
    );
    assert_eq!(
        TypedInit::from_raw(&mut db, 1),
        Err(TableGenError::InvalidBitRange)
    );
}

#[test]
fn bits_decode_copies_buffer_and_releases_it() {
    let mut db = graph(vec![RawValue::Bits(vec![0, 1, 1, 0, 1])]);
    assert_eq!(db.live_buffer_count(), 0);
    let decoded = TypedInit::from_raw(&mut db, 0);
    assert_eq!(decoded, Ok(TypedInit::Bits(vec![0, 1, 1, 0, 1])));
    assert_eq!(db.live_buffer_count(), 0);
}

#[test]
fn bits_empty_is_null_pointer() {
    let mut db = graph(vec![RawValue::Bits(vec![])]);
    assert_eq!(
        TypedInit::from_raw(&mut db, 0),
        Err(TableGenError::NullPointer)
    );
    assert_eq!(db.live_buffer_count(), 0);
}

#[test]
fn int_decodes_directly() {
    let mut db = graph(vec![RawValue::Int(-40), RawValue::Int(i64::MAX)]);
    assert_eq!(TypedInit::from_raw(&mut db, 0), Ok(TypedInit::Int(-40)));
    assert_eq!(TypedInit::from_raw(&mut db, 1), Ok(TypedInit::Int(i64::MAX)));
}

#[test]
fn string_decodes_valid_utf8_losslessly() {
    let mut db = graph(vec![RawValue::Str(b"hello".to_vec())]);
    assert_eq!(
        TypedInit::from_raw(&mut db, 0),
        Ok(TypedInit::String(String::from("hello")))
    );
    assert_eq!(db.live_buffer_count(), 0);
}

#[test]
fn string_decodes_invalid_utf8_lossily() {
    let mut db = graph(vec![RawValue::Str(vec![0xff, b'a'])]);
    assert_eq!(
        TypedInit::from_raw(&mut db, 0),
        Ok(TypedInit::String(String::from("\u{FFFD}a")))
    );
    assert_eq!(db.live_buffer_count(), 0);
}

#[test]
fn unknown_tag_decodes_to_invalid() {
    let mut db = graph(vec![RawValue::Unknown]);
    assert_eq!(TypedInit::from_raw(&mut db, 0), Ok(TypedInit::Invalid));
}

#[test]
fn record_reference_is_carried_through() {
    let mut db = graph(vec![RawValue::Def(7)]);
    assert_eq!(
        TypedInit::from_raw(&mut db, 0),
        Ok(TypedInit::Record(Record::from_raw(7)))
    );
}

#[test]
fn graph_with_dangling_handle_is_rejected() {
    assert!(ForeignGraph::new(vec![RawValue::List(vec![5])]).is_none());
    assert!(ForeignGraph::new(vec![RawValue::List(vec![0])]).is_some());
}

#[test]
fn projection_succeeds_on_matching_variant() {
    assert_eq!(TypedInit::Bit(1).project_bit(), Ok(1));
    assert_eq!(TypedInit::Bits(vec![1, 0]).project_bits(), Ok(vec![1, 0]));
    assert_eq!(TypedInit::Int(9).project_int(), Ok(9));
    assert_eq!(
        TypedInit::String(String::from("s")).project_string(),
        Ok(String::from("s"))
    );
    assert_eq!(
        TypedInit::Code(String::from("c")).project_string(),
        Ok(String::from("c"))
    );
    let list = TypedInit::List(tblgen::init::ListInit::from_raw(3));
    assert_eq!(list.project_list(), Ok(tblgen::init::ListInit::from_raw(3)));
    let dag = TypedInit::Dag(tblgen::init::DagInit::from_raw(4));
    assert_eq!(dag.project_dag(), Ok(tblgen::init::DagInit::from_raw(4)));
    assert_eq!(
        TypedInit::Record(Record::from_raw(2)).project_record(),
        Ok(Record::from_raw(2))
    );
}

#[test]
fn projection_mismatch_returns_the_original_value() {
    assert_eq!(
        TypedInit::Int(7).project_bit(),
        Err(TableGenError::IncorrectInitType(TypedInit::Int(7)))
    );
    assert_eq!(
        TypedInit::Bit(1).project_int(),
        Err(TableGenError::IncorrectInitType(TypedInit::Bit(1)))
    );
    assert_eq!(
        TypedInit::Invalid.project_string(),
        Err(TableGenError::IncorrectInitType(TypedInit::Invalid))
    );
    assert_eq!(
        TypedInit::Bits(vec![1]).project_record(),
        Err(TableGenError::IncorrectInitType(TypedInit::Bits(vec![1])))
    );
}

#[test]
fn peek_accessors_borrow_without_consuming() {
    let v = TypedInit::Int(11);
    assert_eq!(v.as_int(), Some(&11));
    assert_eq!(v.as_bit(), None);
    assert_eq!(v.as_string(), None);
    // still usable afterwards
    assert_eq!(v.project_int(), Ok(11));

    let s = TypedInit::String(String::from("txt"));
    assert_eq!(s.as_string(), Some(&String::from("txt")));
    assert_eq!(s.as_code(), None);

    let c = TypedInit::Code(String::from("code"));
    assert_eq!(c.as_code(), Some(&String::from("code")));

    let b = TypedInit::Bits(vec![0, 1]);
    assert_eq!(b.as_bits(), Some(&vec![0, 1]));

    let bit = TypedInit::Bit(0);
    assert_eq!(bit.as_bit(), Some(&0));

    let rec = TypedInit::Record(Record::from_raw(9));
    assert_eq!(rec.as_def(), Some(&Record::from_raw(9)));
}
