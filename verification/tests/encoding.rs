use face_recognition::encoding::{EncodingError, FaceEncoding, ENCODING_LENGTH};

#[test]
fn encoding_test() {
    let encoding_a = FaceEncoding::new_from_scalar(0.0f64.to_bits());
    let encoding_b = FaceEncoding::new_from_scalar(1.0f64.to_bits());

    assert_eq!(encoding_a, encoding_a);
    assert_ne!(encoding_a, encoding_b);
}

#[test]
fn can_convert_to_and_from_elements() {
    let mut elements = [0f64; 128];
    for (i, element) in elements.iter_mut().enumerate() {
        *element = i as f64;
    }
    let mut bits = [0u64; 128];
    for (i, bit) in bits.iter_mut().enumerate() {
        *bit = elements[i].to_bits();
    }
    let readback = FaceEncoding::new(&bits).to_elements();
    assert_eq!(readback, bits);

    let mut values = [0f64; 128];
    for (i, value) in values.iter_mut().enumerate() {
        *value = f64::from_bits(readback[i]);
    }
    assert_eq!(values, elements);
}

#[test]
fn scalar_encoding_fills_every_component() {
    let scalar = 2.5f64.to_bits();
    let encoding = FaceEncoding::new_from_scalar(scalar);
    assert_eq!(encoding.len(), ENCODING_LENGTH);
    for i in 0..ENCODING_LENGTH {
        assert_eq!(encoding.get(i), scalar);
    }
}

#[test]
fn from_vec_accepts_exactly_128_elements() {
    let mut input: Vec<u64> = Vec::new();
    for i in 0..ENCODING_LENGTH {
        input.push((i as u64) * 3);
    }
    let encoding = FaceEncoding::from_vec(&input).unwrap();
    assert_eq!(encoding.len(), ENCODING_LENGTH);
    for i in 0..ENCODING_LENGTH {
        assert_eq!(encoding.get(i), (i as u64) * 3);
    }
}

#[test]
fn from_vec_rejects_other_lengths() {
    let empty: Vec<u64> = Vec::new();
    assert_eq!(
        FaceEncoding::from_vec(&empty),
        Err(EncodingError::InvalidDimension)
    );

    let short: Vec<u64> = vec![7; ENCODING_LENGTH - 1];
    assert_eq!(
        FaceEncoding::from_vec(&short),
        Err(EncodingError::InvalidDimension)
    );

    let long: Vec<u64> = vec![7; ENCODING_LENGTH + 1];
    assert_eq!(
        FaceEncoding::from_vec(&long),
        Err(EncodingError::InvalidDimension)
    );
}

#[test]
fn nan_component_makes_encodings_unequal() {
    let nan = FaceEncoding::new_from_scalar(f64::NAN.to_bits());
    assert_ne!(nan, nan);

    let mut bits = [1.5f64.to_bits(); 128];
    bits[40] = f64::NAN.to_bits();
    let encoding = FaceEncoding::new(&bits);
    assert_ne!(encoding, encoding.clone());
}

#[test]
fn positive_and_negative_zero_compare_equal() {
    let positive = FaceEncoding::new_from_scalar(0.0f64.to_bits());
    let negative = FaceEncoding::new_from_scalar((-0.0f64).to_bits());
    assert_eq!(positive, negative);
}

#[test]
fn one_differing_component_makes_encodings_unequal() {
    let mut bits_a = [0u64; 128];
    for (i, bit) in bits_a.iter_mut().enumerate() {
        *bit = (i as f64).to_bits();
    }
    let mut bits_b = bits_a;
    bits_b[77] = 1000.0f64.to_bits();

    let encoding_a = FaceEncoding::new(&bits_a);
    let encoding_b = FaceEncoding::new(&bits_b);
    assert_ne!(encoding_a, encoding_b);
    assert_eq!(encoding_a, encoding_a.clone());
}
