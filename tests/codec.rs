use tokio_postgres::tag::rows_affected;
use tokio_postgres::value::{deserialize, serialize, Type, Value};
use tokio_postgres::error::Error;

#[test]
fn command_tags_give_row_counts() {
    assert_eq!(rows_affected("INSERT 0 5"), 5);
    assert_eq!(rows_affected("SELECT 3"), 3);
    assert_eq!(rows_affected("UPDATE 120"), 120);
    assert_eq!(rows_affected("CREATE TABLE"), 0);
    assert_eq!(rows_affected(""), 0);
    assert_eq!(rows_affected("SELECT "), 0);
    assert_eq!(rows_affected("SELECT 18446744073709551615"), u64::MAX);
    assert_eq!(rows_affected("SELECT 18446744073709551616"), 0);
    assert_eq!(rows_affected("SELECT 12a"), 0);
}

#[test]
fn int4_encodes_big_endian() {
    assert_eq!(serialize(&Value::Int4(42)), vec![0, 0, 0, 42]);
    assert_eq!(serialize(&Value::Int4(-1)), vec![255, 255, 255, 255]);
    assert_eq!(serialize(&Value::Int4(0x01020304)), vec![1, 2, 3, 4]);
    assert_eq!(serialize(&Value::Int8(-2)), vec![255, 255, 255, 255, 255, 255, 255, 254]);
    assert_eq!(serialize(&Value::Bool(true)), vec![1]);
    assert_eq!(serialize(&Value::Bytea(vec![9, 8])), vec![9, 8]);
}

#[test]
fn values_round_trip() {
    let values = vec![
        Value::Bool(false),
        Value::Bool(true),
        Value::Int4(i32::MIN),
        Value::Int4(42),
        Value::Int8(i64::MAX),
        Value::Int8(-123456789012),
        Value::Bytea(vec![]),
        Value::Bytea(vec![0, 255, 7]),
    ];
    for v in values {
        let (ty, bytes) = match &v {
            Value::Bool(_) => (Type::Bool, serialize(&v)),
            Value::Int4(_) => (Type::Int4, serialize(&v)),
            Value::Int8(_) => (Type::Int8, serialize(&v)),
            Value::Bytea(_) => (Type::Bytea, serialize(&v)),
        };
        let back = deserialize(&bytes, ty).unwrap();
        match (&v, &back) {
            (Value::Bool(a), Value::Bool(b)) => assert_eq!(a, b),
            (Value::Int4(a), Value::Int4(b)) => assert_eq!(a, b),
            (Value::Int8(a), Value::Int8(b)) => assert_eq!(a, b),
            (Value::Bytea(a), Value::Bytea(b)) => assert_eq!(a, b),
            _ => panic!("type changed"),
        }
    }
}

#[test]
fn wrong_lengths_are_invalid() {
    assert!(matches!(deserialize(&[0, 1], Type::Int4), Err(Error::InvalidValue)));
    assert!(matches!(deserialize(&[0, 1, 2, 3], Type::Int8), Err(Error::InvalidValue)));
    assert!(matches!(deserialize(&[], Type::Bool), Err(Error::InvalidValue)));
    assert_eq!(Type::Int4.oid(), 23);
    assert_eq!(Type::Bool.oid(), 16);
}
