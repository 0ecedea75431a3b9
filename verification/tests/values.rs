use rails_client::value::{FloatBits, WireValue};
use rails_client::wire::{Envelope, Payload, TrainBody};
use rails_client::{Train, Value};

fn train(values: Option<Vec<WireValue>>) -> Envelope {
    Envelope::ok(Payload::Train(Some(TrainBody { values, topic: None, event_time: None })))
}

#[test]
fn values_are_written_by_kind() {
    assert!(matches!(Value::Number(-5).flatternize(), WireValue::Integer(Some(-5))));
    assert!(matches!(Value::Bool(true).flatternize(), WireValue::Bool(Some(true))));
    assert!(matches!(Value::Null.flatternize(), WireValue::Null));
    let bits = 1.5f64.to_bits();
    assert!(matches!(
        Value::Float(FloatBits::Double(bits)).flatternize(),
        WireValue::Float(Some(FloatBits::Double(b))) if b == bits
    ));
    match Value::Text("hi".to_string()).flatternize() {
        WireValue::Text(Some(t)) => assert_eq!(t, "hi"),
        other => panic!("unexpected {:?}", other),
    }
}

#[test]
fn values_round_trip_through_messages() {
    let originals = vec![
        Value::Text("a b".to_string()),
        Value::Number(i64::MIN),
        Value::Float(FloatBits::Double(0.25f64.to_bits())),
        Value::Float(FloatBits::Single(0.5f32.to_bits())),
        Value::Bool(false),
        Value::Null,
    ];
    for v in originals {
        let back = Value::from_wire(v.flatternize());
        assert_eq!(format!("{:?}", back), format!("{:?}", v));
    }
}

#[test]
fn conversions_into_values() {
    assert!(matches!(Value::from(17i64), Value::Number(17)));
    assert!(matches!(Value::from(true), Value::Bool(true)));
    assert!(matches!(Value::from("x".to_string()), Value::Text(ref t) if t == "x"));
    assert!(matches!(Value::from("hi"), Value::Text(ref t) if t == "hi"));
    assert!(matches!(Value::from_text(""), Value::Text(ref t) if t.is_empty()));
}

#[test]
fn train_decodes_its_values_in_order() {
    let t = Train::try_from(train(Some(vec![
        WireValue::Integer(Some(3)),
        WireValue::Text(Some("w".to_string())),
        WireValue::Null,
    ])))
    .unwrap();
    assert_eq!(t.values().len(), 3);
    assert!(matches!(t.values()[0], Value::Number(3)));
    assert!(matches!(t.values()[1], Value::Text(ref s) if s == "w"));
    assert!(matches!(t.values()[2], Value::Null));
}

#[test]
fn train_errors() {
    assert_eq!(Train::try_from(train(None)).err(), Some("Train data type is not correct".to_string()));
    assert_eq!(
        Train::try_from(Envelope::ok(Payload::Train(None))).err(),
        Some("Train data type is not correct".to_string())
    );
    assert_eq!(
        Train::try_from(Envelope::ok(Payload::Catalog(None))).err(),
        Some("Unexpected message type: Catalog".to_string())
    );
    assert!(Train::try_from(train(Some(vec![]))).unwrap().values().is_empty());
}
