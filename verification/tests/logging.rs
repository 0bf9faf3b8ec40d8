//! Tests of the ingestion entry point's acknowledgment string.

use fp_extension::decimal::int_to_string;
use fp_extension::ingest::log;

#[test]
fn logging() {
    let _id: String = "diwako///diwako_test///0.5///1337".to_string();
    let log_level: i32 = 2;
    let time: f64 = rand::random_range(0.0..9999.0);
    let message: String = "This is a test message!".to_string();
    let (output, _event) = log(_id.clone(), log_level, time.to_string(), message.clone());
    assert_eq!(output, format!("{} {} {} {}", _id, log_level, time, message));
}

#[test]
fn ack_format() {
    let (ack, event) = log("m1".to_string(), 2, "1.5".to_string(), "hello".to_string());
    assert_eq!(ack, "m1 2 1.5 hello");
    assert_eq!(event.mission_id, "m1");
    assert_eq!(event.level, 2);
    assert_eq!(event.time, "1.5");
    assert_eq!(event.message, "hello");
}

#[test]
fn ack_negative_level() {
    let (ack, _) = log("alpha".to_string(), -7, "0.25".to_string(), "oops".to_string());
    assert_eq!(ack, "alpha -7 0.25 oops");
}

#[test]
fn ack_empty_strings() {
    let (ack, _) = log(String::new(), 0, String::new(), String::new());
    assert_eq!(ack, " 0  ");
}

#[test]
fn decimal_rendering() {
    assert_eq!(int_to_string(0), "0");
    assert_eq!(int_to_string(10), "10");
    assert_eq!(int_to_string(1337), "1337");
    assert_eq!(int_to_string(-1), "-1");
    assert_eq!(int_to_string(i32::MAX), "2147483647");
    assert_eq!(int_to_string(i32::MIN), "-2147483648");
}
