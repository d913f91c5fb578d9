use math::sink::LogSink;

fn texts(sink: &LogSink) -> Vec<String> {
    sink.messages().clone()
}

#[test]
fn add_small_values() {
    assert_eq!(math::add(2, 3), 5);
    assert_eq!(math::add(-2, -3), -5);
    assert_eq!(math::add(0, 0), 0);
}

#[test]
fn add_wraps_around() {
    assert_eq!(math::add(i32::MAX, 1), i32::MIN);
    assert_eq!(math::add(i32::MIN, -1), i32::MAX);
    assert_eq!(math::add(i32::MAX, i32::MAX), -2);
    assert_eq!(math::add(i32::MIN, i32::MIN), 0);
}

#[test]
fn sub_small_values() {
    assert_eq!(math::sub(5, 2), 3);
    assert_eq!(math::sub(2, 5), -3);
}

#[test]
fn sub_wraps_around() {
    assert_eq!(math::sub(i32::MIN, 1), i32::MAX);
    assert_eq!(math::sub(i32::MAX, -1), i32::MIN);
    assert_eq!(math::sub(0, i32::MIN), i32::MIN);
}

#[test]
fn mul_small_values() {
    assert_eq!(math::mul(4, 5), 20);
    assert_eq!(math::mul(-4, 5), -20);
    assert_eq!(math::mul(-4, -5), 20);
}

#[test]
fn mul_wraps_around() {
    assert_eq!(math::mul(65536, 65536), 0);
    assert_eq!(math::mul(i32::MAX, 2), -2);
    assert_eq!(math::mul(i32::MIN, -1), i32::MIN);
    assert_eq!(math::mul(46341, 46341), -2147479015);
}

#[test]
fn add_and_mul_commute() {
    let pairs: [(i32, i32); 5] =
        [(2, 3), (-7, 11), (i32::MAX, 1), (i32::MIN, -1), (65537, 65539)];
    for (a, b) in pairs {
        assert_eq!(math::add(a, b), math::add(b, a));
        assert_eq!(math::mul(a, b), math::mul(b, a));
    }
}

#[test]
fn div_rounds_toward_zero() {
    let mut sink: LogSink = LogSink::new();
    assert_eq!(math::div(10, 3, &mut sink), 3);
    assert_eq!(math::div(-7, 2, &mut sink), -3);
    assert_eq!(math::div(7, -2, &mut sink), -3);
    assert_eq!(math::div(-7, -2, &mut sink), 3);
    assert_eq!(math::div(0, 5, &mut sink), 0);
    assert_eq!(math::div(i32::MIN, 1, &mut sink), i32::MIN);
    assert_eq!(math::div(i32::MAX, -1, &mut sink), -i32::MAX);
    assert!(texts(&sink).is_empty());
}

#[test]
fn div_by_zero_gives_zero_and_one_warning() {
    let mut sink: LogSink = LogSink::new();
    assert_eq!(math::div(7, 0, &mut sink), 0);
    assert_eq!(texts(&sink), vec!["Warning: Division by zero!".to_string()]);
}

#[test]
fn div_overflow_wraps_around() {
    let mut sink: LogSink = LogSink::new();
    assert_eq!(math::div(i32::MIN, -1, &mut sink), i32::MIN);
    assert!(texts(&sink).is_empty());
}

#[test]
fn mod_takes_sign_of_dividend() {
    let mut sink: LogSink = LogSink::new();
    assert_eq!(math::mod_op(10, 3, &mut sink), 1);
    assert_eq!(math::mod_op(-7, 2, &mut sink), -1);
    assert_eq!(math::mod_op(7, -2, &mut sink), 1);
    assert_eq!(math::mod_op(-7, -2, &mut sink), -1);
    assert_eq!(math::mod_op(6, 3, &mut sink), 0);
    assert_eq!(math::mod_op(i32::MIN, -1, &mut sink), 0);
    assert_eq!(math::mod_op(i32::MIN, i32::MAX, &mut sink), -1);
    assert!(texts(&sink).is_empty());
}

#[test]
fn mod_by_zero_gives_zero_and_one_warning() {
    let mut sink: LogSink = LogSink::new();
    assert_eq!(math::mod_op(7, 0, &mut sink), 0);
    assert_eq!(texts(&sink), vec!["Warning: Modulus by zero!".to_string()]);
}

#[test]
fn quotient_and_remainder_give_dividend_back() {
    let pairs: [(i32, i32); 7] =
        [(10, 3), (-10, 3), (10, -3), (-10, -3), (i32::MIN, 7), (i32::MAX, -9), (i32::MIN, -1)];
    for (a, b) in pairs {
        let mut sink: LogSink = LogSink::new();
        let q: i32 = math::div(a, b, &mut sink);
        let r: i32 = math::mod_op(a, b, &mut sink);
        assert_eq!(math::add(math::mul(q, b), r), a);
        assert!(texts(&sink).is_empty());
    }
}
