use trading_control::common::decimal::Decimal;
use trading_control::common::idlist::{clone_ids, contains_id, remove_id};
use trading_control::common::table::Table;
use trading_control::common::text::{extend_bytes, number_text, signed_text, str_equal, utf8_bytes};
use trading_control::common::types::Real;

fn float(x: f64) -> Real {
    Real { bits: x.to_bits() }
}

#[test]
fn numbers_are_written_in_decimal() {
    assert_eq!(number_text(0), "0");
    assert_eq!(number_text(7), "7");
    assert_eq!(number_text(1_700_000_000_000), "1700000000000");
    assert_eq!(number_text(u64::MAX), "18446744073709551615");
    assert_eq!(signed_text(0), "0");
    assert_eq!(signed_text(-1), "-1");
    assert_eq!(signed_text(i64::MAX), "9223372036854775807");
    assert_eq!(signed_text(i64::MIN), "-9223372036854775808");
}

#[test]
fn strings_and_their_bytes() {
    assert!(str_equal("", ""));
    assert!(str_equal("binance", "binance"));
    assert!(!str_equal("binance", "binancE"));
    assert!(!str_equal("binance", "binanc"));
    assert!(!str_equal("é", "e"));
    assert_eq!(utf8_bytes("aé"), [0x61, 0xC3, 0xA9]);
    let mut bytes = vec![1u8];
    extend_bytes(&mut bytes, &vec![2, 3]);
    extend_bytes(&mut bytes, &vec![]);
    assert_eq!(bytes, [1, 2, 3]);
}

#[test]
fn floats_compare_by_their_bits_as_floats_do() {
    let values = [
        0.0,
        -0.0,
        1.0,
        -1.0,
        0.8,
        0.85,
        0.0001,
        -0.0001,
        f64::MIN_POSITIVE,
        5e-324,
        -5e-324,
        f64::MAX,
        f64::MIN,
        f64::INFINITY,
        f64::NEG_INFINITY,
        f64::NAN,
        -f64::NAN,
    ];
    for a in values {
        assert_eq!(float(a).is_nan(), a.is_nan(), "{}", a);
        assert_eq!(float(a).abs().bits, a.abs().to_bits(), "{}", a);
        for b in values {
            assert_eq!(float(a).greater_than(float(b)), a > b, "{} > {}", a, b);
        }
    }
}

#[test]
fn decimals_are_ordered_by_value() {
    let d = |m: i128, s: u32| Decimal::new(m, s).unwrap();
    assert!(Decimal::new(1, 29).is_none());
    assert!(Decimal::new(1i128 << 96, 0).is_none());
    assert!(Decimal::new((1i128 << 96) - 1, 28).is_some());
    assert!(Decimal::new(-(1i128 << 96), 0).is_none());
    assert!(d(15, 1).equals(&d(150, 2)));
    assert!(!d(15, 1).equals(&d(15, 2)));
    assert!(d(15, 2).less_than(&d(15, 1)));
    assert!(!d(15, 1).less_than(&d(150, 2)));
    assert!(d(15, 1).at_most(&d(150, 2)));
    assert!(d(-1, 0).less_than(&d(1, 28)));
    assert!(d(2, 0).greater_than(&d(19, 1)));
    assert!(d(2, 0).at_least(&d(20, 1)));
    assert!(!d(2, 0).at_least(&d(21, 1)));
    assert!(d(0, 5).is_zero() && !d(0, 5).is_positive() && !d(0, 5).is_negative());
    assert!(d(3, 5).is_positive() && d(-3, 5).is_negative());
    assert_eq!(d(-3, 5).abs(), d(3, 5));
    assert_eq!(d(3, 5).abs(), d(3, 5));
    assert_eq!(d(3, 5).negated(), d(-3, 5));
    assert_eq!(Decimal::zero(), d(0, 0));
    assert_eq!(Decimal::from_int(-42), d(-42, 0));
    assert_eq!(Decimal::from_int(i64::MIN), d(i64::MIN as i128, 0));
}

#[test]
fn table_holds_one_value_under_each_key() {
    let mut t: Table<u32> = Table::new();
    assert_eq!(t.len(), 0);
    assert!(!t.contains_key("a"));
    t.upsert("a".to_string(), 1);
    t.upsert("b".to_string(), 2);
    t.upsert("a".to_string(), 3);
    assert_eq!(t.len(), 2);
    assert_eq!(t.lookup("a"), Some(&3));
    assert_eq!(t.lookup("b"), Some(&2));
    assert_eq!(t.lookup("c"), None);
    assert_eq!(t.find("b"), Some(1));
    t.push_new("c".to_string(), 4);
    t.set_at(2, 5);
    assert_eq!(t.lookup("c"), Some(&5));
    assert_eq!(t.remove("a"), Some(3));
    assert_eq!(t.remove("a"), None);
    assert_eq!(t.len(), 2);
    assert!(t.contains_key("b") && t.contains_key("c") && !t.contains_key("a"));
    let at = t.find("b").unwrap();
    assert_eq!(t.remove_at(at), ("b".to_string(), 2));
    assert_eq!(t.keys, ["c"]);
    assert_eq!(t.values, [5]);
}

#[test]
fn id_lists() {
    let ids = vec!["a".to_string(), "b".to_string(), "a".to_string()];
    assert!(contains_id(&ids, "b"));
    assert!(!contains_id(&ids, "c"));
    assert_eq!(clone_ids(&ids), ids);
    let mut left = clone_ids(&ids);
    remove_id(&mut left, "a");
    assert_eq!(left, ["b"]);
    remove_id(&mut left, "zz");
    assert_eq!(left, ["b"]);
}
