use openzwave_adapter::label::{decimal_string, service_label, value_label};

#[test]
fn decimal_of_zero_is_a_single_digit() {
    assert_eq!(decimal_string(0), "0");
}

#[test]
fn decimal_of_the_largest_number() {
    assert_eq!(decimal_string(u64::MAX), "18446744073709551615");
}

#[test]
fn service_label_names_the_home() {
    assert_eq!(service_label(42), "OpenZWave/42");
}

#[test]
fn value_label_names_the_value_and_its_label() {
    assert_eq!(value_label(72057594043072512, "Door"), "OpenZWave/72057594043072512 (Door)");
}

#[test]
fn decimal_has_no_leading_zero() {
    assert_eq!(decimal_string(10), "10");
    assert_eq!(decimal_string(9), "9");
    assert_eq!(decimal_string(1000000), "1000000");
    assert_eq!(decimal_string(4294967295), "4294967295");
}

#[test]
fn networks_that_differ_have_labels_that_differ() {
    let homes: [u32; 6] = [0, 1, 10, 11, 101, u32::MAX];
    for a in homes {
        for b in homes {
            assert_eq!(service_label(a) == service_label(b), a == b);
        }
    }
}

#[test]
fn values_that_differ_have_labels_that_differ() {
    let values: [(u64, &str); 5] = [(1, "Door"), (1, "Door "), (11, "Door"), (1, "1 (Door"), (1, "")];
    for (a, name) in values {
        for (b, other) in values {
            assert_eq!(value_label(a, name) == value_label(b, other), a == b && name == other);
        }
    }
    assert_eq!(value_label(1, ""), "OpenZWave/1 ()");
}
