use aws_s3_webdav::stream_utils::numbers;

#[test]
fn test_numbers() {
    let n = numbers(0);

    let v: Vec<i64> = n.take(5);
    assert_eq!(v, vec![0, 1, 2, 3, 4]);
}

#[test]
fn test_zip() {
    let a = numbers(0);
    let b = numbers(10);
    let v: Vec<(i64, i64)> = a.take(2).into_iter().zip(b.take(5)).collect();

    assert_eq!(v, vec![(0, 10), (1, 11)]);
}

#[test]
fn numbers_start_where_they_are_told() {
    assert_eq!(numbers(1).take(3), vec![1, 2, 3]);
    assert_eq!(numbers(-2).take(4), vec![-2, -1, 0, 1]);
}

#[test]
fn taking_none_gives_none() {
    assert_eq!(numbers(7).take(0), Vec::<i64>::new());
}

#[test]
fn next_gives_each_number_once() {
    let mut source = numbers(41);
    assert_eq!(source.peek(), 41);
    assert_eq!(source.next(), 41);
    assert_eq!(source.next(), 42);
    assert_eq!(source.peek(), 43);
    assert_eq!(source.take(2), vec![43, 44]);
}

#[test]
fn numbers_reach_the_largest_number() {
    assert_eq!(numbers(i64::MAX - 2).take(2), vec![i64::MAX - 2, i64::MAX - 1]);
}
