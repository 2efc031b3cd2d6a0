use h3ron::classify::{ClassifiedBand, Classifier, NoData};
use h3ron::value::{FromValue, ToValue, Value};

#[test]
fn test_value_conversion() {
    let i = 5u8;
    let v = i.to_value();
    assert_eq!(Value::Uint8(i), v);
    let i2 = v.from_value();
    assert!(i2.is_some());
    assert_eq!(Some(i), i2);
}

#[test]
fn each_scalar_round_trips_and_no_other_type_extracts() {
    let v = 300u16.to_value();
    assert_eq!(v, Value::Uint16(300));
    assert_eq!(FromValue::<u16>::from_value(&v), Some(300u16));
    assert_eq!(FromValue::<u8>::from_value(&v), None);
    assert_eq!(FromValue::<u32>::from_value(&v), None);
    assert_eq!(FromValue::<i16>::from_value(&v), None);
    assert_eq!(FromValue::<i32>::from_value(&v), None);

    let v = (-7i16).to_value();
    assert_eq!(v, Value::Int16(-7));
    assert_eq!(FromValue::<i16>::from_value(&v), Some(-7i16));
    assert_eq!(FromValue::<i32>::from_value(&v), None);

    let v = (-70000i32).to_value();
    assert_eq!(FromValue::<i32>::from_value(&v), Some(-70000i32));
    assert_eq!(FromValue::<u32>::from_value(&v), None);

    let v = u32::MAX.to_value();
    assert_eq!(FromValue::<u32>::from_value(&v), Some(u32::MAX));
    assert_eq!(FromValue::<i32>::from_value(&v), None);
    assert_eq!(v.float32_bits(), None);
}

#[test]
fn float_payloads_keep_their_bits() {
    let x = -0.0f32;
    let v = Value::Float32(x.to_bits());
    assert_eq!(v.float32_bits().map(f32::from_bits).unwrap().to_bits(), x.to_bits());
    assert_eq!(v.float64_bits(), None);
    assert_eq!(FromValue::<u32>::from_value(&v), None);
    let y = 2.5f64;
    let w = Value::Float64(y.to_bits());
    assert_eq!(w.float64_bits().map(f64::from_bits), Some(2.5f64));
    assert_eq!(w.float32_bits(), None);
}

#[test]
fn float_equality_is_total() {
    let nan_a = Value::Float32(f32::NAN.to_bits());
    let nan_b = Value::Float32(f32::NAN.to_bits() | 1);
    assert_eq!(nan_a, nan_a);
    assert_eq!(nan_a, nan_b);
    assert_eq!(Value::Float32(0.0f32.to_bits()), Value::Float32((-0.0f32).to_bits()));
    assert_eq!(Value::Float64(0.0f64.to_bits()), Value::Float64((-0.0f64).to_bits()));
    assert_ne!(Value::Float32(1.0f32.to_bits()), Value::Float32(2.0f32.to_bits()));
    assert_ne!(Value::Float32(f32::INFINITY.to_bits()), Value::Float32(f32::NEG_INFINITY.to_bits()));
    assert_ne!(Value::Float32(1.0f32.to_bits()), Value::Float64(1.0f64.to_bits()));
    assert_ne!(Value::Float64(f64::NAN.to_bits()), Value::Float64(0.0f64.to_bits()));
    assert_ne!(Value::Uint8(1), Value::Uint16(1));
}

#[test]
fn equal_values_share_a_hash_key() {
    assert_eq!(Value::Float32(0.0f32.to_bits()).hash_key(), Value::Float32((-0.0f32).to_bits()).hash_key());
    let nan_a = Value::Float64(f64::NAN.to_bits());
    let nan_b = Value::Float64(f64::NAN.to_bits() | 3);
    assert_eq!(nan_a.hash_key(), nan_b.hash_key());
    assert_eq!(Value::Float64(1.5f64.to_bits()).hash_key(), (6u64, 1.5f64.to_bits()));
    assert_eq!(Value::Int16(-1).hash_key(), (0u64, 0xffffu64));
    assert_ne!(Value::Uint8(1).hash_key(), Value::Uint16(1).hash_key());

    let mut set = std::collections::HashSet::new();
    set.insert(Value::Float32(0.0f32.to_bits()));
    assert!(set.contains(&Value::Float32((-0.0f32).to_bits())));
    assert!(!set.contains(&Value::Float32(1.0f32.to_bits())));
}

#[test]
fn no_data_masks_only_its_sentinel() {
    let nd = NoData::new(Value::Int32(-9999));
    assert_eq!(nd.classify(Value::Int32(-9999)), None);
    assert_eq!(nd.classify(Value::Int32(5)), Some(Value::Int32(5)));
    assert_eq!(nd.classify(Value::Int16(-9999)), Some(Value::Int16(-9999)));
    assert_eq!(nd.classify(Value::Uint32(9999)), Some(Value::Uint32(9999)));
    assert_eq!(*nd.value_type(), Value::Int32(-9999));
}

#[test]
fn no_data_on_floats_is_exact() {
    let nd = NoData::new(Value::Float32(f32::NAN.to_bits()));
    assert_eq!(nd.classify(Value::Float32(f32::NAN.to_bits())), None);
    let one = Value::Float32(1.0f32.to_bits());
    assert_eq!(nd.classify(one), Some(one));
    let nd = NoData::new(Value::Float64(0.0f64.to_bits()));
    assert_eq!(nd.classify(Value::Float64((-0.0f64).to_bits())), None);
    let close = Value::Float64(1e-300f64.to_bits());
    assert_eq!(nd.classify(close), Some(close));
}

#[test]
fn classified_band_binds_a_classifier() {
    let band = ClassifiedBand { source_band: 2, classifier: NoData::new(Value::Uint8(0)) };
    assert_eq!(band.source_band, 2);
    assert_eq!(band.classifier.classify(Value::Uint8(0)), None);
    assert_eq!(band.classifier.classify(Value::Uint8(1)), Some(Value::Uint8(1)));
}
