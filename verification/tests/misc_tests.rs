use rko_core::assert_same_type;
use rko_core::io_uring::IssueFlags;
use rko_core::kunit::{is_test_result_ok, TestResult};
use rko_core::module::{misc_register_outcome, MiscDeviceOptions, MISC_DYNAMIC_MINOR};
use rko_core::printk::{generate, kern_cont, kern_level, RawFormatter, FORMAT_LENGTH};
use rko_core::unsafe_list::{Links, List};
use rko_core::user::{Reader, Writer};

#[test]
fn issue_flags_round_trip() {
    assert_eq!(IssueFlags::from_raw(0x81).raw(), 0x81);
}

#[test]
fn test_results() {
    assert!(is_test_result_ok(&()));
    assert!(is_test_result_ok(&Ok::<u8, u8>(1)));
    assert!(!is_test_result_ok(&Err::<u8, u8>(1)));
    assert!(().is_test_ok());
}

#[test]
fn same_type_check() {
    assert_same_type(1u8, 2u8);
}

#[test]
fn misc_device() {
    let o = MiscDeviceOptions { name: b"rko\0" };
    assert_eq!(o.name.len(), 4);
    assert_eq!(MISC_DYNAMIC_MINOR, 255);
    assert_eq!(misc_register_outcome(0), Ok(()));
    assert_eq!(misc_register_outcome(-16).unwrap_err().to_errno(), -16);
}

#[test]
fn format_strings() {
    assert_eq!(kern_level(3), [1, b'3', 0]);
    let err = generate(false, &kern_level(3));
    assert_eq!(&err, b"\x013%s: %pA\0");
    let cont = generate(true, &kern_cont());
    assert_eq!(&cont, b"\x01c%pA\0\0\0\0\0");
    assert_eq!(err.len(), FORMAT_LENGTH);
}

#[test]
fn raw_formatter_truncates() {
    let mut f = RawFormatter::from_ptrs(1000, 1005);
    f.write_str(b"abc");
    assert_eq!(f.pos(), 1003);
    f.write_str(b"defg");
    assert_eq!(f.pos(), 1005);
    f.write_str(b"h");
    assert_eq!(f.pos(), 1005);
    let mut g = RawFormatter::from_ptrs(10, 5);
    g.write_str(b"x");
    assert_eq!(g.pos(), 10);
}

#[test]
fn links_start_unlinked() {
    assert!(!Links::new().is_linked());
}

#[test]
fn list_is_fifo() {
    let mut l = List::new();
    let (mut la, mut lb, mut lc) = (Links::new(), Links::new(), Links::new());
    assert!(l.is_empty());
    l.push_back(0x10, &mut la);
    l.push_back(0x20, &mut lb);
    l.push_back(0x30, &mut lc);
    assert!(la.is_linked() && lb.is_linked() && lc.is_linked());
    assert_eq!(l.front(), Some(0x10));
    l.remove(0x20, &mut lb);
    assert!(!lb.is_linked());
    assert!(!l.contains(0x20));
    assert_eq!(l.pop_front(&mut la), Some(0x10));
    assert!(!la.is_linked());
    assert_eq!(l.pop_front(&mut lc), Some(0x30));
    assert!(!lc.is_linked());
    let mut spare = Links::new();
    assert_eq!(l.pop_front(&mut spare), None);
    assert!(!spare.is_linked());
    assert!(l.is_empty());
    assert_eq!(l.front(), None);
}

#[test]
fn writer_bounds_and_advance() {
    let mut w = Writer::new(0x1000, 8);
    assert_eq!(w.len(), 8);
    assert_eq!(w.check_write(9).unwrap_err().to_errno(), -14);
    assert!(w.check_write(8).is_ok());
    assert_eq!(w.complete_write(3, 1).unwrap_err().to_errno(), -14);
    assert_eq!(w.len(), 8);
    w.complete_write(3, 0).unwrap();
    assert_eq!(w.len(), 5);
    assert_eq!(w.ptr(), 0x1003);
    w.complete_write(5, 0).unwrap();
    assert!(w.is_empty());
}

#[test]
fn reader_bounds_and_advance() {
    let mut r = Reader::new(0x2000, 4);
    assert_eq!(r.read_len(10), 4);
    assert_eq!(r.read_len(2), 2);
    assert_eq!(r.complete_read(0, 5), Ok(0));
    assert_eq!(r.complete_read(2, 1).unwrap_err().to_errno(), -14);
    assert_eq!(r.complete_read(2, 0), Ok(2));
    assert_eq!(r.len(), 2);
    assert_eq!(r.ptr(), 0x2002);
    assert!(!r.is_empty());
}
