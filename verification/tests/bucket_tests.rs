use datesort::bucket::{joined, Bucket};

#[test]
fn month_and_year_are_zero_padded() {
    let b = Bucket::for_date(2023, 3).unwrap();
    assert_eq!(b.year_string(), "2023");
    assert_eq!(b.month_string(), "03");

    let early = Bucket::for_date(0, 1).unwrap();
    assert_eq!(early.year_string(), "0000");
    assert_eq!(early.month_string(), "01");

    let late = Bucket::for_date(9999, 12).unwrap();
    assert_eq!(late.year_string(), "9999");
    assert_eq!(late.month_string(), "12");
}

#[test]
fn years_outside_four_digits_have_no_bucket() {
    assert!(Bucket::for_date(-1, 6).is_none());
    assert!(Bucket::for_date(10000, 6).is_none());
    assert!(Bucket::for_date(9999, 6).is_some());
    assert!(Bucket::for_date(0, 6).is_some());
}

#[test]
fn bucket_dir_is_root_year_month() {
    let b = Bucket::for_date(2022, 1).unwrap();
    assert_eq!(b.dir_under("root"), "root/2022/01");
    let b2 = Bucket::for_date(2023, 12).unwrap();
    assert_eq!(b2.dir_under("/data/photos"), "/data/photos/2023/12");
}

#[test]
fn joined_keeps_the_filename() {
    assert_eq!(joined("root/2022/01", "a.txt"), "root/2022/01/a.txt");
    assert_eq!(joined("", "x"), "/x");
}
