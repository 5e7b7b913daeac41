use std::cmp::Ordering;

use klondike::display::bounds::Bounds;
use klondike::display::coords::Coords;
use klondike::display::error::Error as DisplayError;
use klondike::error::{Error, ErrorExt, ErrorKind, ResultExt};
use klondike::terminal::Error as TerminalError;
use klondike::utils::{bounded_sub, decimal, index_of_last_n, split_off_around, split_off_bounded};

#[derive(Debug, PartialEq)]
enum TestKind {
    Broken,
}

impl ErrorKind for TestKind {}

#[test]
fn decimal_digits() {
    assert_eq!(decimal(0), "0");
    assert_eq!(decimal(7), "7");
    assert_eq!(decimal(10), "10");
    assert_eq!(decimal(65535), "65535");
    assert_eq!(decimal(u64::MAX), "18446744073709551615");
}

#[test]
fn bounded_subtraction() {
    assert_eq!(bounded_sub(7, 3), 4);
    assert_eq!(bounded_sub(3, 7), 0);
    assert_eq!(index_of_last_n(2, &[1, 2, 3, 4]), 2);
    assert_eq!(index_of_last_n(9, &[1, 2, 3, 4]), 0);
}

#[test]
fn split_off_bounded_takes_the_tail() {
    let mut v = vec![1, 2, 3, 4, 5];
    assert_eq!(split_off_bounded(&mut v, 2), vec![4, 5]);
    assert_eq!(v, vec![1, 2, 3]);
    assert_eq!(split_off_bounded(&mut v, 10), vec![1, 2, 3]);
    assert!(v.is_empty());
}

#[test]
fn split_off_around_an_index() {
    let mut v = vec![1, 2, 3, 4, 5];
    assert_eq!(split_off_around(&mut v, 1), (Some(2), vec![3, 4, 5]));
    assert_eq!(v, vec![1]);
    assert_eq!(split_off_around(&mut v, 3), (None, vec![]));
    assert_eq!(v, vec![1]);
}

#[test]
fn errors_carry_their_cause() {
    let e: Error<TestKind> = Error::from_kind(TestKind::Broken);
    assert_eq!(e.kind, TestKind::Broken);
    assert!(e.source.is_none());
    let wrapped = String::from("disk full").wrap_as_source_of(TestKind::Broken);
    assert_eq!(wrapped.source, Some(String::from("disk full")));
    let failed: Result<u8, String> = Err(String::from("no tty"));
    let mapped = failed.map_err_as_source_of(TestKind::Broken);
    assert_eq!(mapped.unwrap_err().source, Some(String::from("no tty")));
    let fine: Result<u8, String> = Ok(3);
    assert_eq!(fine.map_err_as_source_of(TestKind::Broken).ok(), Some(3));
}

#[test]
fn terminal_and_display_error_texts() {
    let e = TerminalError::TtyError { message: String::from("gone") };
    assert_eq!(e.text(), "Unable to get TTY: gone");
    let e = TerminalError::RawModeError { message: String::from("x") };
    assert_eq!(e.text(), "Unable switch output to raw mode: x");
    let e = TerminalError::WriteError { message: String::from("y") };
    assert_eq!(e.text(), "Unable write to output: y");
    let e = DisplayError::DisplayIoError { message: String::from("z") };
    assert_eq!(e.text(), "Error writing to the terminal: z");
}

#[test]
fn coords_arithmetic() {
    let a = Coords::from_xy(2, 3);
    let b = Coords::from_xy(5, -1);
    assert_eq!(a.add(b), Coords::from_xy(7, 2));
    assert_eq!(a.sub(b), Coords::from_xy(-3, 4));
    assert_eq!(a.mul(3), Coords::from_xy(6, 9));
    let mut c = a;
    c.add_assign(b);
    c.mul_assign(2);
    c.sub_assign(Coords::x(1));
    assert_eq!(c, Coords::from_xy(13, 4));
    assert_eq!(a.to_x(), Coords::x(2));
    assert_eq!(a.to_y(), Coords::y(3));
    assert!(a.le(&Coords::from_xy(2, 3)));
    assert!(!a.lt(&Coords::from_xy(2, 3)));
    assert!(a.lt(&Coords::from_xy(3, 0)));
}

#[test]
fn bounds_of_cells() {
    let b = Bounds::with_size(Coords::from_xy(1, 1), Coords::from_xy(3, 2));
    assert_eq!(b.bottom_right, Coords::from_xy(3, 2));
    assert!(b.contains(Coords::from_xy(2, 2)));
    assert!(!b.contains(Coords::from_xy(4, 1)));
    let cells = b.coords_iter();
    assert_eq!(cells, vec![Coords::from_xy(1, 1), Coords::from_xy(2, 1)]);
    let other = Bounds::new(Coords::from_xy(0, 2), Coords::from_xy(2, 5));
    assert_eq!(b.add(other), Bounds::new(Coords::from_xy(0, 1), Coords::from_xy(3, 5)));
    let mut grown = b;
    grown.add_assign(other);
    assert_eq!(grown, Bounds::new(Coords::from_xy(0, 1), Coords::from_xy(3, 5)));
    assert_eq!(grown.partial_cmp(&grown), Some(Ordering::Equal));
    let inner = Bounds::new(Coords::from_xy(1, 2), Coords::from_xy(2, 4));
    assert_eq!(grown.partial_cmp(&inner), Some(Ordering::Greater));
    assert_eq!(inner.partial_cmp(&grown), Some(Ordering::Less));
    let apart = Bounds::new(Coords::from_xy(0, 0), Coords::from_xy(2, 1));
    assert_eq!(b.partial_cmp(&apart), None);
}
