use rand_chacha::rand_core::SeedableRng;
use rand_chacha::ChaCha8Rng;
use random_scan::config::RandomGUC;
use random_scan::datum::Datum;
use random_scan::datum::RealDraw;
use random_scan::datum::TypeTag;
use random_scan::generator::dispatch;
use random_scan::generator::format_time;
use random_scan::generator::generate_random_data_for_oid;
use random_scan::generator::random_document;
use random_scan::generator::random_interval;
use random_scan::generator::random_ip;
use random_scan::generator::random_numeric;
use random_scan::generator::random_time;
use random_scan::generator::ValueGenerator;

fn small_texts() -> RandomGUC {
    let mut guc = RandomGUC::new();
    guc.set_text_length_range(3, 10);
    guc
}

#[test]
fn every_type_identifier_has_its_kind() {
    assert_eq!(TypeTag::from_oid(21), TypeTag::SmallInt);
    assert_eq!(TypeTag::from_oid(23), TypeTag::Integer);
    assert_eq!(TypeTag::from_oid(20), TypeTag::BigInt);
    assert_eq!(TypeTag::from_oid(700), TypeTag::Single);
    assert_eq!(TypeTag::from_oid(701), TypeTag::Double);
    assert_eq!(TypeTag::from_oid(16), TypeTag::Boolean);
    assert_eq!(TypeTag::from_oid(25), TypeTag::Text);
    assert_eq!(TypeTag::from_oid(1043), TypeTag::VarChar);
    assert_eq!(TypeTag::from_oid(1042), TypeTag::BpChar);
    assert_eq!(TypeTag::from_oid(1700), TypeTag::Numeric);
    assert_eq!(TypeTag::from_oid(1082), TypeTag::Date);
    assert_eq!(TypeTag::from_oid(1083), TypeTag::Time);
    assert_eq!(TypeTag::from_oid(1114), TypeTag::Timestamp);
    assert_eq!(TypeTag::from_oid(1186), TypeTag::Interval);
    assert_eq!(TypeTag::from_oid(2950), TypeTag::Uuid);
    assert_eq!(TypeTag::from_oid(869), TypeTag::Inet);
    assert_eq!(TypeTag::from_oid(600), TypeTag::Point);
    assert_eq!(TypeTag::from_oid(603), TypeTag::BoundingBox);
    assert_eq!(TypeTag::from_oid(718), TypeTag::Circle);
    assert_eq!(TypeTag::from_oid(114), TypeTag::Json);
    assert_eq!(TypeTag::from_oid(1021), TypeTag::SingleArray);
    assert_eq!(TypeTag::from_oid(1022), TypeTag::DoubleArray);
}

#[test]
fn other_type_identifiers_are_unsupported() {
    assert_eq!(TypeTag::from_oid(142), TypeTag::Unsupported);
    assert_eq!(TypeTag::from_oid(0), TypeTag::Unsupported);
    assert_eq!(TypeTag::from_oid(17), TypeTag::Unsupported);
    assert_eq!(TypeTag::from_oid(u32::MAX), TypeTag::Unsupported);
}

#[test]
fn integer_generators_take_their_ranges_from_the_tunables() {
    let guc = RandomGUC::new();
    assert_eq!(
        dispatch(TypeTag::SmallInt, &guc),
        ValueGenerator::SmallInt { low: -5000, high: 10000 }
    );
    assert_eq!(
        dispatch(TypeTag::Integer, &guc),
        ValueGenerator::Integer { low: -10000, high: 10000 }
    );
    assert_eq!(
        dispatch(TypeTag::BigInt, &guc),
        ValueGenerator::BigInt { low: -10000, high: 20000 }
    );
}

#[test]
fn the_small_integer_floor_is_halved_toward_zero() {
    let mut guc = RandomGUC::new();
    guc.set_integer_range(-9999, 10);
    assert_eq!(
        dispatch(TypeTag::SmallInt, &guc),
        ValueGenerator::SmallInt { low: -4999, high: 10 }
    );
    guc.set_integer_range(7, 10);
    assert_eq!(dispatch(TypeTag::SmallInt, &guc), ValueGenerator::SmallInt { low: 3, high: 10 });
}

#[test]
fn the_large_integer_ceiling_is_doubled_without_overflow() {
    let mut guc = RandomGUC::new();
    guc.set_integer_range(i32::MIN, i32::MAX);
    assert_eq!(
        dispatch(TypeTag::BigInt, &guc),
        ValueGenerator::BigInt { low: -2147483648, high: 4294967294 }
    );
}

#[test]
fn text_generators_take_their_lengths_from_the_tunables() {
    let guc = RandomGUC::new();
    let expected = ValueGenerator::Text { min: 30000, max: 50000 };
    assert_eq!(dispatch(TypeTag::Text, &guc), expected);
    assert_eq!(dispatch(TypeTag::VarChar, &guc), expected);
    assert_eq!(dispatch(TypeTag::BpChar, &guc), expected);
}

#[test]
fn real_kinds_are_left_to_the_host() {
    let mut guc = RandomGUC::new();
    guc.set_float_scale(4);
    guc.set_array_length(12);
    assert_eq!(
        dispatch(TypeTag::Single, &guc),
        ValueGenerator::Real(RealDraw::Single { scale: 4 })
    );
    assert_eq!(
        dispatch(TypeTag::Double, &guc),
        ValueGenerator::Real(RealDraw::Double { scale: 4 })
    );
    assert_eq!(
        dispatch(TypeTag::Numeric, &guc),
        ValueGenerator::Real(RealDraw::Numeric { scale: 4 })
    );
    assert_eq!(
        dispatch(TypeTag::SingleArray, &guc),
        ValueGenerator::Real(RealDraw::SingleArray { scale: 4, len: 12 })
    );
    assert_eq!(
        dispatch(TypeTag::DoubleArray, &guc),
        ValueGenerator::Real(RealDraw::DoubleArray { scale: 4, len: 12 })
    );
    assert_eq!(
        dispatch(TypeTag::Point, &guc),
        ValueGenerator::Real(RealDraw::Point { range: 100 })
    );
    assert_eq!(
        dispatch(TypeTag::BoundingBox, &guc),
        ValueGenerator::Real(RealDraw::BoundingBox { range: 100 })
    );
    assert_eq!(
        dispatch(TypeTag::Circle, &guc),
        ValueGenerator::Real(RealDraw::Circle { range: 100 })
    );
}

#[test]
fn a_real_generator_yields_its_draw_and_leaves_the_stream() {
    let mut rng = ChaCha8Rng::seed_from_u64(5);
    let untouched = rng.clone();
    let draw = RealDraw::SingleArray { scale: 2, len: 3 };
    let value = ValueGenerator::Real(draw).generate(&mut rng);
    assert_eq!(value, Some(Datum::Real(draw)));
    assert_eq!(rng, untouched);
}

#[test]
fn the_plain_kinds_have_their_generators() {
    let guc = RandomGUC::new();
    assert_eq!(dispatch(TypeTag::Boolean, &guc), ValueGenerator::Boolean);
    assert_eq!(dispatch(TypeTag::Date, &guc), ValueGenerator::Date);
    assert_eq!(dispatch(TypeTag::Time, &guc), ValueGenerator::Time);
    assert_eq!(dispatch(TypeTag::Timestamp, &guc), ValueGenerator::Timestamp);
    assert_eq!(dispatch(TypeTag::Interval, &guc), ValueGenerator::Interval);
    assert_eq!(dispatch(TypeTag::Uuid, &guc), ValueGenerator::Uuid);
    assert_eq!(dispatch(TypeTag::Inet, &guc), ValueGenerator::Inet);
    assert_eq!(dispatch(TypeTag::Json, &guc), ValueGenerator::Json);
    assert_eq!(dispatch(TypeTag::Unsupported, &guc), ValueGenerator::Null);
}

#[test]
fn an_empty_range_cannot_be_drawn() {
    assert!(ValueGenerator::Integer { low: 0, high: 1 }.is_drawable());
    assert!(!ValueGenerator::Integer { low: 5, high: 5 }.is_drawable());
    assert!(!ValueGenerator::Integer { low: 6, high: 5 }.is_drawable());
    assert!(!ValueGenerator::BigInt { low: 5, high: 5 }.is_drawable());
    assert!(ValueGenerator::BigInt { low: -1, high: 5 }.is_drawable());
    assert!(!ValueGenerator::Text { min: 3, max: 3 }.is_drawable());
    assert!(ValueGenerator::Text { min: 3, max: 4 }.is_drawable());
    assert!(!ValueGenerator::SmallInt { low: -2, high: -3 }.is_drawable());
    assert!(ValueGenerator::Null.is_drawable());
    assert!(ValueGenerator::Json.is_drawable());
}

#[test]
fn a_small_integer_range_must_fit_sixteen_bits() {
    assert!(ValueGenerator::SmallInt { low: -32768, high: 32767 }.is_drawable());
    assert!(!ValueGenerator::SmallInt { low: -32769, high: 0 }.is_drawable());
    assert!(!ValueGenerator::SmallInt { low: 0, high: 32768 }.is_drawable());
}

#[test]
fn small_integers_stay_in_range() {
    let mut rng = ChaCha8Rng::seed_from_u64(1);
    let generator = ValueGenerator::SmallInt { low: -5000, high: 10000 };
    let mut seen_low = false;
    let mut seen_high = false;
    for _ in 0..2000 {
        match generator.generate(&mut rng) {
            Some(Datum::SmallInt(v)) => {
                assert!((-5000..10000).contains(&v));
                seen_low |= v < 0;
                seen_high |= v > 5000;
            }
            other => panic!("not a small integer: {:?}", other),
        }
    }
    assert!(seen_low && seen_high);
}

#[test]
fn integers_stay_in_range() {
    let mut rng = ChaCha8Rng::seed_from_u64(2);
    let generator = ValueGenerator::Integer { low: -3, high: 4 };
    let mut seen = [false; 7];
    for _ in 0..500 {
        match generator.generate(&mut rng) {
            Some(Datum::Integer(v)) => {
                assert!((-3..4).contains(&v));
                seen[(v + 3) as usize] = true;
            }
            other => panic!("not an integer: {:?}", other),
        }
    }
    assert_eq!(seen, [true; 7]);
}

#[test]
fn large_integers_stay_in_the_widened_range() {
    let mut rng = ChaCha8Rng::seed_from_u64(3);
    let guc = RandomGUC::new();
    let mut beyond_max = false;
    for _ in 0..500 {
        match generate_random_data_for_oid(20, &guc, &mut rng) {
            Some(Datum::BigInt(v)) => {
                assert!((-10000..20000).contains(&v));
                beyond_max |= v >= 10000;
            }
            other => panic!("not a large integer: {:?}", other),
        }
    }
    assert!(beyond_max);
}

#[test]
fn booleans_take_both_values() {
    let mut rng = ChaCha8Rng::seed_from_u64(4);
    let mut seen_true = false;
    let mut seen_false = false;
    for _ in 0..200 {
        match ValueGenerator::Boolean.generate(&mut rng) {
            Some(Datum::Boolean(v)) => {
                seen_true |= v;
                seen_false |= !v;
            }
            other => panic!("not a boolean: {:?}", other),
        }
    }
    assert!(seen_true && seen_false);
}

#[test]
fn texts_have_the_length_asked_for() {
    let mut rng = ChaCha8Rng::seed_from_u64(5);
    let guc = small_texts();
    let mut lengths = [false; 10];
    for oid in [25u32, 1043, 1042] {
        for _ in 0..200 {
            match generate_random_data_for_oid(oid, &guc, &mut rng) {
                Some(Datum::Text(text)) => {
                    assert!((3..10).contains(&text.len()));
                    assert!(text.chars().all(|c| c.is_ascii_alphanumeric()));
                    lengths[text.len()] = true;
                }
                other => panic!("not a text: {:?}", other),
            }
        }
    }
    assert_eq!(lengths, [false, false, false, true, true, true, true, true, true, true]);
}

#[test]
fn default_texts_are_long() {
    let mut rng = ChaCha8Rng::seed_from_u64(6);
    let guc = RandomGUC::new();
    match generate_random_data_for_oid(25, &guc, &mut rng) {
        Some(Datum::Text(text)) => assert!((30000..50000).contains(&text.len())),
        other => panic!("not a text: {:?}", other),
    }
}

#[test]
fn dates_are_written_year_month_day() {
    let mut rng = ChaCha8Rng::seed_from_u64(7);
    for _ in 0..200 {
        match ValueGenerator::Date.generate(&mut rng) {
            Some(Datum::Date(text)) => {
                let bytes = text.as_bytes();
                assert_eq!(bytes.len(), 10);
                assert_eq!(bytes[4], b'-');
                assert_eq!(bytes[7], b'-');
                let year: u32 = text[0..4].parse().unwrap();
                let month: u32 = text[5..7].parse().unwrap();
                let day: u32 = text[8..10].parse().unwrap();
                assert!(year < 3000);
                assert!((1..=12).contains(&month));
                assert!((1..=31).contains(&day));
            }
            other => panic!("not a date: {:?}", other),
        }
    }
}

#[test]
fn a_time_is_written_with_two_digits_a_field() {
    assert_eq!(format_time(0, 0, 0), "00:00:00");
    assert_eq!(format_time(7, 5, 3), "07:05:03");
    assert_eq!(format_time(23, 59, 59), "23:59:59");
    assert_eq!(format_time(10, 40, 9), "10:40:09");
}

#[test]
fn times_are_times_of_day() {
    let mut rng = ChaCha8Rng::seed_from_u64(8);
    let mut late = false;
    for _ in 0..300 {
        let text = random_time(&mut rng);
        assert_eq!(text.len(), 8);
        let hour: u32 = text[0..2].parse().unwrap();
        let minute: u32 = text[3..5].parse().unwrap();
        let second: u32 = text[6..8].parse().unwrap();
        assert_eq!(text, format!("{:02}:{:02}:{:02}", hour, minute, second));
        assert!(hour < 24 && minute < 60 && second < 60);
        late |= hour >= 12 && minute >= 30 && second >= 30;
    }
    assert!(late);
}

#[test]
fn the_time_generator_yields_a_time() {
    let mut a = ChaCha8Rng::seed_from_u64(9);
    let mut b = ChaCha8Rng::seed_from_u64(9);
    let direct = random_time(&mut a);
    assert_eq!(ValueGenerator::Time.generate(&mut b), Some(Datum::Time(direct)));
    assert_eq!(a, b);
}

#[test]
fn timestamps_stay_in_the_narrowed_range() {
    let mut rng = ChaCha8Rng::seed_from_u64(10);
    let mut negative = false;
    let mut positive = false;
    for _ in 0..300 {
        match generate_random_data_for_oid(1114, &RandomGUC::new(), &mut rng) {
            Some(Datum::Timestamp(v)) => {
                assert!(v >= i64::MIN / 128);
                assert!(v < i64::MAX / 1024);
                negative |= v < 0;
                positive |= v > 0;
            }
            other => panic!("not a timestamp: {:?}", other),
        }
    }
    assert!(negative && positive);
}

#[test]
fn intervals_have_no_months_and_few_days() {
    let mut rng = ChaCha8Rng::seed_from_u64(11);
    let mut days_seen = [false; 5];
    let mut large = false;
    for _ in 0..300 {
        let value = random_interval(&mut rng);
        assert_eq!(value.months, 0);
        assert!((0..5).contains(&value.days));
        assert!((0..24 * 3600 * 1000).contains(&value.micros));
        days_seen[value.days as usize] = true;
        large |= value.micros > 1000;
    }
    assert_eq!(days_seen, [true; 5]);
    assert!(large);
}

#[test]
fn uuids_differ_from_draw_to_draw() {
    let mut rng = ChaCha8Rng::seed_from_u64(12);
    let first = ValueGenerator::Uuid.generate(&mut rng);
    let second = ValueGenerator::Uuid.generate(&mut rng);
    match (&first, &second) {
        (Some(Datum::Uuid(a)), Some(Datum::Uuid(b))) => {
            assert_ne!(a, b);
            assert_ne!(a, &[0u8; 16]);
        }
        other => panic!("not two uuids: {:?}", other),
    }
}

#[test]
fn addresses_are_dotted_quads() {
    let mut rng = ChaCha8Rng::seed_from_u64(13);
    for _ in 0..200 {
        let text = random_ip(&mut rng);
        let parts: Vec<&str> = text.split('.').collect();
        assert_eq!(parts.len(), 4);
        for part in parts {
            let byte: u32 = part.parse().unwrap();
            assert!(byte < 256);
        }
        assert!((7..=15).contains(&text.len()));
    }
}

#[test]
fn decimals_have_the_digits_asked_for() {
    let mut rng = ChaCha8Rng::seed_from_u64(14);
    let mut wide_whole = false;
    let mut wide_fraction = false;
    for _ in 0..300 {
        let value = random_numeric(&mut rng, 5, 3);
        assert!((0..100000).contains(&value.whole));
        assert!((0..1000).contains(&value.fraction));
        assert_eq!(value.digits, 3);
        wide_whole |= value.whole >= 10000;
        wide_fraction |= value.fraction >= 100;
    }
    assert!(wide_whole && wide_fraction);
}

#[test]
fn a_decimal_without_digits_is_zero() {
    let mut rng = ChaCha8Rng::seed_from_u64(15);
    let value = random_numeric(&mut rng, 0, 0);
    assert_eq!(value.whole, 0);
    assert_eq!(value.fraction, 0);
    assert_eq!(value.digits, 0);
}

#[test]
fn nine_digits_are_the_most_a_decimal_takes() {
    let mut rng = ChaCha8Rng::seed_from_u64(16);
    let mut wide = false;
    for _ in 0..50 {
        let value = random_numeric(&mut rng, 9, 9);
        assert!((0..1000000000).contains(&value.whole));
        assert!((0..1000000000).contains(&value.fraction));
        wide |= value.whole >= 100000000;
    }
    assert!(wide);
}

#[test]
fn documents_have_the_fixed_shape() {
    let mut rng = ChaCha8Rng::seed_from_u64(17);
    for _ in 0..200 {
        let document = random_document(&mut rng);
        assert!((0..1893427200).contains(&document.ts));
        assert!((10..20).contains(&document.text.len()));
        assert!(document.text.chars().all(|c| c.is_ascii_alphanumeric()));
        assert!((0..100000).contains(&document.price.whole));
        assert!((0..1000).contains(&document.price.fraction));
        assert_eq!(document.price.digits, 3);
        assert!((1..20000).contains(&document.count));
    }
}

#[test]
fn the_json_generator_yields_a_document() {
    let mut a = ChaCha8Rng::seed_from_u64(18);
    let mut b = ChaCha8Rng::seed_from_u64(18);
    let direct = random_document(&mut a);
    assert_eq!(
        generate_random_data_for_oid(114, &RandomGUC::new(), &mut b),
        Some(Datum::Json(direct))
    );
}

#[test]
fn an_unsupported_type_never_has_a_value() {
    let mut rng = ChaCha8Rng::seed_from_u64(19);
    let untouched = rng.clone();
    let guc = RandomGUC::new();
    for oid in [142u32, 0, 1, 9999, u32::MAX] {
        for _ in 0..20 {
            assert_eq!(generate_random_data_for_oid(oid, &guc, &mut rng), None);
        }
    }
    assert_eq!(ValueGenerator::Null.generate(&mut rng), None);
    assert_eq!(rng, untouched);
}

#[test]
fn the_same_stream_gives_the_same_values() {
    let guc = small_texts();
    for oid in [21u32, 23, 20, 16, 25, 1082, 1083, 1114, 1186, 2950, 869, 114] {
        let mut a = ChaCha8Rng::seed_from_u64(77);
        let mut b = ChaCha8Rng::seed_from_u64(77);
        for _ in 0..10 {
            let left = generate_random_data_for_oid(oid, &guc, &mut a);
            let right = generate_random_data_for_oid(oid, &guc, &mut b);
            assert!(left.is_some());
            assert_eq!(left, right);
        }
        assert_eq!(a, b);
    }
}

#[test]
fn every_draw_moves_the_stream() {
    let guc = small_texts();
    for oid in [21u32, 23, 20, 16, 25, 1082, 1083, 1114, 1186, 2950, 869, 114] {
        let mut rng = ChaCha8Rng::seed_from_u64(78);
        let before = rng.clone();
        generate_random_data_for_oid(oid, &guc, &mut rng);
        assert_ne!(rng, before);
    }
}
