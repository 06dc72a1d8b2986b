use random_scan::config::RandomGUC;

#[test]
fn defaults_are_the_documented_ones() {
    let guc = RandomGUC::new();
    assert_eq!(guc.seed(), 0);
    assert_eq!(guc.min_integer(), -10000);
    assert_eq!(guc.max_integer(), 10000);
    assert_eq!(guc.min_text_length(), 30000);
    assert_eq!(guc.max_text_length(), 50000);
    assert_eq!(guc.array_length(), 1024);
    assert_eq!(guc.float_scale(), 1);
}

#[test]
fn seed_option_is_the_positive_seed_or_zero() {
    let mut guc = RandomGUC::new();
    assert_eq!(guc.seed_option(), 0);
    guc.set_seed(42);
    assert_eq!(guc.seed(), 42);
    assert_eq!(guc.seed_option(), 42);
    guc.set_seed(-7);
    assert_eq!(guc.seed(), -7);
    assert_eq!(guc.seed_option(), 0);
    guc.set_seed(i32::MAX);
    assert_eq!(guc.seed_option(), 2147483647);
}

#[test]
fn integer_bounds_never_cross() {
    let mut guc = RandomGUC::new();
    guc.set_min_integer(-5);
    assert_eq!(guc.min_integer(), -5);
    guc.set_max_integer(-20);
    assert_eq!(guc.max_integer(), -5);
    guc.set_max_integer(7);
    assert_eq!(guc.max_integer(), 7);
    guc.set_min_integer(8);
    assert_eq!(guc.min_integer(), 7);
    guc.set_min_integer(i32::MIN);
    assert_eq!(guc.min_integer(), i32::MIN);
    guc.set_max_integer(i32::MAX);
    assert_eq!(guc.max_integer(), i32::MAX);
}

#[test]
fn integer_range_is_set_at_once() {
    let mut guc = RandomGUC::new();
    guc.set_integer_range(20000, 30000);
    assert_eq!(guc.min_integer(), 20000);
    assert_eq!(guc.max_integer(), 30000);
    guc.set_integer_range(5, 1);
    assert_eq!(guc.min_integer(), 5);
    assert_eq!(guc.max_integer(), 5);
}

#[test]
fn text_length_has_a_floor_of_three() {
    let mut guc = RandomGUC::new();
    guc.set_min_text_length(0);
    assert_eq!(guc.min_text_length(), 3);
    guc.set_min_text_length(-1);
    assert_eq!(guc.min_text_length(), 3);
    guc.set_min_text_length(3);
    assert_eq!(guc.min_text_length(), 3);
    guc.set_min_text_length(4);
    assert_eq!(guc.min_text_length(), 4);
}

#[test]
fn text_bounds_never_cross() {
    let mut guc = RandomGUC::new();
    guc.set_min_text_length(60000);
    assert_eq!(guc.min_text_length(), 50000);
    guc.set_max_text_length(10);
    assert_eq!(guc.max_text_length(), 50000);
    guc.set_min_text_length(3);
    guc.set_max_text_length(10);
    assert_eq!(guc.min_text_length(), 3);
    assert_eq!(guc.max_text_length(), 10);
    guc.set_max_text_length(2);
    assert_eq!(guc.max_text_length(), 3);
}

#[test]
fn text_range_is_set_at_once() {
    let mut guc = RandomGUC::new();
    guc.set_text_length_range(60000, 70000);
    assert_eq!(guc.min_text_length(), 60000);
    assert_eq!(guc.max_text_length(), 70000);
    guc.set_text_length_range(1, 2);
    assert_eq!(guc.min_text_length(), 3);
    assert_eq!(guc.max_text_length(), 3);
    guc.set_text_length_range(3, 10);
    assert_eq!(guc.min_text_length(), 3);
    assert_eq!(guc.max_text_length(), 10);
}

#[test]
fn array_length_stays_between_one_and_16384() {
    let mut guc = RandomGUC::new();
    guc.set_array_length(0);
    assert_eq!(guc.array_length(), 1);
    guc.set_array_length(16385);
    assert_eq!(guc.array_length(), 16384);
    guc.set_array_length(16384);
    assert_eq!(guc.array_length(), 16384);
    guc.set_array_length(1);
    assert_eq!(guc.array_length(), 1);
    guc.set_array_length(300);
    assert_eq!(guc.array_length(), 300);
}

#[test]
fn float_scale_is_at_least_one() {
    let mut guc = RandomGUC::new();
    guc.set_float_scale(0);
    assert_eq!(guc.float_scale(), 1);
    guc.set_float_scale(-3);
    assert_eq!(guc.float_scale(), 1);
    guc.set_float_scale(250);
    assert_eq!(guc.float_scale(), 250);
}

#[test]
fn a_setter_leaves_the_other_tunables_alone() {
    let mut guc = RandomGUC::new();
    guc.set_array_length(8);
    guc.set_float_scale(3);
    guc.set_seed(9);
    assert_eq!(guc.min_integer(), -10000);
    assert_eq!(guc.max_integer(), 10000);
    assert_eq!(guc.min_text_length(), 30000);
    assert_eq!(guc.max_text_length(), 50000);
    assert_eq!(guc.array_length(), 8);
    assert_eq!(guc.float_scale(), 3);
    assert_eq!(guc.seed(), 9);
}
