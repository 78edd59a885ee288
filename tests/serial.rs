use serial_num::Serial;

const NAN_U16: u16 = u16::MAX;
const MAX_U16: u16 = u16::MAX - 1;
const MID_U16: u16 = 32_767;

const CANDIDATES: [u16; 10] = [
    0,
    1,
    2,
    MID_U16 - 1,
    MID_U16,
    MID_U16 + 1,
    MAX_U16 - 2,
    MAX_U16 - 1,
    MAX_U16,
    NAN_U16,
];

fn serial(n: u16) -> Serial {
    Serial::from(n)
}

#[test]
fn increase_nan() {
    let mut nan = Serial::nan();
    nan.increase();
    assert_eq!(nan, Serial::nan())
}

#[test]
fn cmp1() {
    let a = Serial::default();
    let b = serial(MAX_U16);
    assert!(a.succeeds(b));
    assert!(b.precedes(a));
}

#[test]
fn cmp2() {
    let a = serial(1000);
    let b = serial(u16::MAX - 1000);
    assert!(a.succeeds(b));
    assert!(b.precedes(a));
}

#[test]
fn cmp_edge_case() {
    let zero = Serial::default();
    let mid = serial(32767);

    assert!(mid.succeeds(zero));
    assert!(zero.precedes(mid));
}

#[test]
fn dist1() {
    let a = Serial::default();
    let b = serial(MAX_U16);
    assert_eq!(a.dist(b), 1);
    assert_eq!(b.dist(a), 1);
}

#[test]
fn dist2() {
    let a = serial(1000);
    let b = serial(MAX_U16 - 1000);
    let expected_a_diff_to_zero = 1000;
    let expected_b_diff_to_max = 1000;
    let expected = 1 + expected_a_diff_to_zero + expected_b_diff_to_max;
    assert_eq!(a.dist(b), expected);
    assert_eq!(b.dist(a), expected);
}

#[test]
fn dist3() {
    let zero = Serial::default();
    let mid = serial(32767);
    assert!(zero.precedes(mid));

    let actual1 = zero.dist(mid);
    let actual2 = mid.dist(zero);
    assert_eq!(actual1, actual2);
    assert_eq!(actual1, 32767);

    // one further, the order flips around and the distance stays the same
    let mid_plus_one = serial(32768);
    assert!(zero.succeeds(mid_plus_one));

    let actual1 = zero.dist(mid_plus_one);
    let actual2 = mid_plus_one.dist(zero);
    assert_eq!(actual1, actual2);
    assert_eq!(actual1, 32767);
}

#[test]
fn simple_example() {
    let a = serial(5_u16);
    let b = serial(7_u16);

    assert!(a.precedes(b));
    assert!(b.succeeds(a));

    let diff = b.dist(a);
    assert_eq!(diff, 2);
}

#[test]
fn wraparound_example() {
    // serial number 5 comes after serial number 65000
    let a = serial(5_u16);
    let mut b = serial(65000_u16);
    assert!(a.succeeds(b));
    assert!(b.precedes(a));

    let dist = b.dist(a);
    let expected_diff = MAX_U16 - 65000 + 5 + 1;
    assert_eq!(dist, expected_diff);

    let mut n_increases = 0;
    while b != a {
        let _ = b.get_increase();
        n_increases += 1;
    }
    assert_eq!(n_increases, expected_diff);
}

#[test]
fn diff() {
    let a = Serial::default();
    let mut b = Serial::default();

    for _ in 0..5 {
        b.increase();
        let diff_pos = a.diff(b);
        let diff_neg = b.diff(a);
        assert_eq!(-diff_pos, diff_neg);
    }
}

#[test]
fn plus() {
    assert_eq!(serial(5), serial(3) + 2);

    assert_eq!(serial(MAX_U16), serial(0) + MAX_U16);
    assert_eq!(serial(0), serial(0) + MAX_U16 + 1);

    assert_eq!(serial(0), serial(0) + u16::MAX);
    assert_eq!(serial(MAX_U16), serial(MAX_U16) + u16::MAX);

    assert_eq!(serial(5 + MID_U16), serial(5) + MID_U16);

    assert!(serial(0).precedes(serial(0) + MID_U16));
    assert!(serial(0).succeeds(serial(1) + MID_U16));

    assert_eq!(Serial::nan(), Serial::nan() + 1);
}

#[test]
fn min() {
    assert_eq!(serial(0), serial(0).min(serial(5)));
    assert_eq!(serial(0), serial(5).min(serial(0)));

    assert_eq!(serial(0), serial(0).min(serial(MID_U16)));
    assert_eq!(serial(0), serial(MID_U16).min(serial(0)));

    assert_eq!(serial(MID_U16 + 1), serial(0).min(serial(MID_U16 + 1)));
    assert_eq!(serial(MID_U16 + 1), serial(MID_U16 + 1).min(serial(0)));
}

#[test]
fn max() {
    assert_eq!(serial(5), serial(0).max(serial(5)));
    assert_eq!(serial(5), serial(5).max(serial(0)));

    assert_eq!(serial(MID_U16), serial(0).max(serial(MID_U16)));
    assert_eq!(serial(MID_U16), serial(MID_U16).max(serial(0)));

    assert_eq!(serial(0), serial(0).max(serial(MID_U16 + 1)));
    assert_eq!(serial(0), serial(MID_U16 + 1).max(serial(0)));
}

/// A test with a lot of coverage, but no assertions.
#[test]
fn no_overflows() {
    for n in CANDIDATES {
        for m in CANDIDATES {
            let a = serial(n);
            let b = serial(m);

            let _ = a.is_nan();
            let _ = a.dist(b);
            let _ = a.diff(b);
            let _ = a.partial_cmp(b);

            let _ = a + 0;
            let _ = a + MID_U16;
            let _ = a + u16::MAX;

            let mut c = serial(n);
            for _ in 0..5 {
                c.increase();
                let _ = c.increase_get();
                let _ = c.get_increase();
            }
        }
    }
}
