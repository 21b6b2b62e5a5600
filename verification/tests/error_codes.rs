use kernel::error::Error;
use kernel::file_operations::from_kernel_result;

#[test]
fn errno_values_match_host_convention() {
    assert_eq!(Error::EINVAL.to_kernel_errno(), -22);
    assert_eq!(Error::EFAULT.to_kernel_errno(), -14);
    assert_eq!(Error::ENOMEM.to_kernel_errno(), -12);
    assert_eq!(Error::Code(-16).to_kernel_errno(), -16);
}

#[test]
fn from_kernel_errno_canonicalizes() {
    assert_eq!(Error::from_kernel_errno(-22), Error::EINVAL);
    assert_eq!(Error::from_kernel_errno(-14), Error::EFAULT);
    assert_eq!(Error::from_kernel_errno(-12), Error::ENOMEM);
    assert_eq!(Error::from_kernel_errno(-99), Error::Code(-99));
}

#[test]
fn errno_round_trip_preserves_code() {
    for code in [-1i32, -12, -14, -22, -38, -4095] {
        assert_eq!(Error::from_kernel_errno(code).to_kernel_errno(), code);
    }
}

#[test]
fn from_kernel_result_passes_success_through() {
    let ok: Result<i32, Error> = Ok(17);
    assert_eq!(from_kernel_result::<i32>(ok), 17);
}

#[test]
fn from_kernel_result_folds_errors_negative() {
    let e32: Result<i32, Error> = Err(Error::EINVAL);
    assert_eq!(from_kernel_result::<i32>(e32), -22);
    let e64: Result<i64, Error> = Err(Error::EFAULT);
    assert_eq!(from_kernel_result::<i64>(e64), -14);
    let esz: Result<isize, Error> = Err(Error::ENOMEM);
    assert_eq!(from_kernel_result::<isize>(esz), -12);
}
