use rko_core::error::{to_err_ptr, Error};
use rko_core::fs::dentry::{lookup_reply, splice_alias_outcome};
use rko_core::iov::{write_all_outcome, IoVecIter};

#[test]
fn iov_transfer() {
    let mut it = IoVecIter::new(10);
    assert_eq!(it.count(), 10);
    assert_eq!(it.transfer_len(4), 4);
    assert_eq!(it.transfer_len(40), 10);
    assert_eq!(it.complete(0, 0), Ok(0));
    assert_eq!(it.complete(4, 0).unwrap_err().to_errno(), -14);
    assert_eq!(it.complete(4, 3), Ok(3));
    assert_eq!(it.count(), 7);
    assert_eq!(it.complete(7, 7), Ok(7));
    assert!(it.is_empty());
}

#[test]
fn iov_write_all() {
    assert_eq!(write_all_outcome(5, 5), Ok(()));
    assert_eq!(write_all_outcome(4, 5).unwrap_err().to_errno(), -14);
}

#[test]
fn lookup_replies() {
    assert_eq!(lookup_reply(Ok(Some(0x8000))), 0x8000);
    assert_eq!(lookup_reply(Ok(None)), 0);
    assert_eq!(lookup_reply(Err(Error::enoent())), usize::MAX - 1);
}

#[test]
fn splice_alias_outcomes() {
    assert_eq!(splice_alias_outcome(0), Ok(None));
    assert_eq!(splice_alias_outcome(0x9000), Ok(Some(0x9000)));
    let err = to_err_ptr(Err(Error::enoent()));
    assert_eq!(splice_alias_outcome(err).unwrap_err().to_errno(), -2);
    let high = isize::MAX as usize + 1;
    assert_eq!(splice_alias_outcome(high), Ok(Some(high)));
    assert_eq!(splice_alias_outcome(usize::MAX - 4095), Ok(Some(usize::MAX - 4095)));
}
