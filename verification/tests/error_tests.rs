use rko_core::error::{
    from_err_ptr, from_result, to_err_ptr, Error, EINVAL, ENOENT, ENOMEM, MAX_ERRNO,
};
use rko_core::kalloc::AllocError;

#[test]
fn new_negates_errno() {
    assert_eq!(Error::new(EINVAL).to_errno(), -22);
    assert_eq!(Error::new(ENOENT).to_errno(), -2);
}

#[test]
fn named_errors_hold_negative_errno() {
    assert_eq!(Error::einval().to_errno(), -22);
    assert_eq!(Error::enomem().to_errno(), -12);
    assert_eq!(Error::eio().to_errno(), -5);
    assert_eq!(Error::efault().to_errno(), -14);
    assert_eq!(Error::ebusy().to_errno(), -16);
    assert_eq!(Error::econnreset().to_errno(), -104);
    assert_eq!(Error::eopnotsupp().to_errno(), -95);
    assert_eq!(Error::enosys().to_errno(), -38);
}

#[test]
fn from_errno_keeps_negative_values() {
    assert_eq!(Error::from_errno(-5).to_errno(), -5);
    assert_eq!(Error::from_errno(-4095).to_errno(), -4095);
}

#[test]
fn from_errno_falls_back_to_einval() {
    assert_eq!(Error::from_errno(0).to_errno(), -EINVAL);
    assert_eq!(Error::from_errno(7).to_errno(), -EINVAL);
}

#[test]
fn from_result_maps_ok_and_err() {
    assert_eq!(from_result(|| Ok(())), 0);
    assert_eq!(from_result(|| Err(Error::enoent())), -2);
}

#[test]
fn alloc_error_converts_to_enomem() {
    let e: Error = AllocError.into();
    assert_eq!(e.to_errno(), -ENOMEM);
}

#[test]
fn err_ptr_round_trip() {
    for errno in [-1, -12, -MAX_ERRNO] {
        let addr = to_err_ptr(Err(Error::from_errno(errno)));
        assert_eq!(addr, usize::MAX - ((-errno) as usize) + 1);
        match from_err_ptr(addr) {
            Err(e) => assert_eq!(e.to_errno(), errno),
            Ok(_) => panic!("error pointer decoded as a pointer"),
        }
    }
}

#[test]
fn ordinary_pointers_pass_through() {
    assert_eq!(to_err_ptr(Ok(0x1000)), 0x1000);
    assert_eq!(from_err_ptr(0x1000), Ok(0x1000));
    assert_eq!(from_err_ptr(usize::MAX - 4095), Ok(usize::MAX - 4095));
    assert_eq!(from_err_ptr(0), Ok(0));
}

#[test]
fn positive_error_value_encodes_as_small_address() {
    assert_eq!(to_err_ptr(Err(Error::new(-22))), 22);
}
