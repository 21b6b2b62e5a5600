use kernel::error::{Error, KernelResult};
use kernel::file_operations::{FileOperations, ToUse};
use kernel::miscdev::{MISC_DYNAMIC_MINOR, Registration};

struct MiscDev;

impl FileOperations for MiscDev {
    type Wrapper = Box<MiscDev>;

    fn to_use() -> ToUse {
        ToUse { read: true, seek: true, ..ToUse::none() }
    }

    fn open() -> KernelResult<Box<MiscDev>> {
        Ok(Box::new(MiscDev))
    }
}

#[test]
fn register_fills_the_record_from_the_declaration() {
    let mut reg = Registration::new();
    assert!(!reg.is_registered());
    assert_eq!(reg.register::<MiscDev>(b"mydev".to_vec(), None, 0), Ok(()));
    assert!(reg.is_registered());
    let dev = reg.device().unwrap();
    assert_eq!(dev.name, b"mydev".to_vec());
    assert_eq!(dev.minor, MISC_DYNAMIC_MINOR);
    assert!(dev.fops.open && dev.fops.release);
    assert!(dev.fops.read && dev.fops.llseek);
    assert!(!dev.fops.write && !dev.fops.unlocked_ioctl && !dev.fops.compat_ioctl && !dev.fops.fsync);
}

#[test]
fn register_takes_an_explicit_minor() {
    let mut reg = Registration::new();
    assert_eq!(reg.register::<MiscDev>(b"mydev".to_vec(), Some(7), 0), Ok(()));
    assert_eq!(reg.device().unwrap().minor, 7);
}

#[test]
fn registering_twice_fails_with_invalid_argument() {
    let mut reg = Registration::new();
    assert_eq!(reg.register::<MiscDev>(b"a".to_vec(), None, 0), Ok(()));
    assert_eq!(reg.register::<MiscDev>(b"b".to_vec(), None, 0), Err(Error::EINVAL));
    // The first registration is untouched.
    assert_eq!(reg.device().unwrap().name, b"a".to_vec());
}

#[test]
fn host_refusal_leaves_the_object_unregistered() {
    let mut reg = Registration::new();
    let r = reg.register::<MiscDev>(b"busy".to_vec(), None, -16);
    assert_eq!(r, Err(Error::Code(-16)));
    assert!(!reg.is_registered());
    // It may try again once the host is willing.
    assert_eq!(reg.register::<MiscDev>(b"busy".to_vec(), None, 0), Ok(()));
}

#[test]
fn new_pinned_registers_on_the_heap() {
    let reg = Registration::new_pinned::<MiscDev>(b"pinned".to_vec(), None, 0).unwrap();
    assert!(reg.is_registered());
    assert_eq!(reg.device().unwrap().name, b"pinned".to_vec());
}

#[test]
fn new_pinned_propagates_the_host_failure() {
    match Registration::new_pinned::<MiscDev>(b"pinned".to_vec(), None, -12) {
        Err(e) => assert_eq!(e, Error::ENOMEM),
        Ok(_) => panic!("a refused registration must not succeed"),
    }
}

#[test]
fn deregister_clears_the_record_and_yields_it() {
    let mut reg = Registration::new();
    assert_eq!(reg.register::<MiscDev>(b"gone".to_vec(), Some(3), 0), Ok(()));
    let record = reg.deregister().unwrap();
    assert_eq!(record.name, b"gone".to_vec());
    assert_eq!(record.minor, 3);
    assert!(!reg.is_registered());
    assert!(reg.deregister().is_none());
    // Once cleared, the object may register again.
    assert_eq!(reg.register::<MiscDev>(b"back".to_vec(), None, 0), Ok(()));
}

#[test]
fn default_registration_is_unregistered() {
    let reg = Registration::default();
    assert!(!reg.is_registered());
}
