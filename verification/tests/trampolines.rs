use std::sync::Arc;

use kernel::error::{Error, KernelResult};
use kernel::file_operations::{
    File, FileOperations, HostFile, IoctlCommand, IoctlHandler, PointerWrapper, SeekFrom, ToUse,
    compat_ioctl_callback, fsync_callback, llseek_callback, open_callback, read_callback,
    release_callback, unlocked_ioctl_callback, write_callback,
};
use kernel::user_ptr::{UserSlicePtrReader, UserSlicePtrWriter};

/// A driver whose behaviour each trampoline test can predict: `read` offers
/// "hello", `write` consumes at most four bytes, `seek` echoes its input.
#[derive(PartialEq, Debug)]
struct EchoDev {
    tag: i32,
}

impl IoctlHandler for EchoDev {
    fn pure(&self, _file: &File, _cmd: u32, arg: usize) -> KernelResult<i32> {
        Ok(arg as i32)
    }
}

impl FileOperations for EchoDev {
    type Wrapper = Box<EchoDev>;

    fn to_use() -> ToUse {
        ToUse { read: true, write: true, seek: true, ioctl: true, compat_ioctl: true, fsync: true }
    }

    fn open() -> KernelResult<Box<EchoDev>> {
        Ok(Box::new(EchoDev { tag: 7 }))
    }

    fn read(&self, _file: &File, data: &mut UserSlicePtrWriter, _offset: u64) -> KernelResult<()> {
        data.write(b"hello");
        Ok(())
    }

    fn write(&self, data: &mut UserSlicePtrReader, _offset: u64) -> KernelResult<isize> {
        let got = data.read(4);
        Ok(got.len() as isize)
    }

    fn seek(&self, _file: &File, offset: SeekFrom) -> KernelResult<u64> {
        match offset {
            SeekFrom::Start(o) => Ok(o),
            SeekFrom::Current(_) => Ok(10),
            SeekFrom::End(_) => Ok(20),
        }
    }

    fn ioctl(&self, file: &File, cmd: &mut IoctlCommand) -> KernelResult<i32> {
        cmd.dispatch(self, file)
    }

    fn compat_ioctl(&self, _file: &File, _cmd: &mut IoctlCommand) -> KernelResult<i32> {
        Err(Error::ENOMEM)
    }

    fn fsync(&self, _file: &File, _start: u64, _end: u64, _datasync: bool) -> KernelResult<u32> {
        Ok(3)
    }
}

/// A driver held by shared, reference-counted ownership.
#[derive(PartialEq, Debug)]
struct SharedDev {
    tag: i32,
}

impl FileOperations for SharedDev {
    type Wrapper = Arc<SharedDev>;

    fn to_use() -> ToUse {
        ToUse {
            read: false,
            write: false,
            seek: false,
            ioctl: false,
            compat_ioctl: false,
            fsync: false,
        }
    }

    fn open() -> KernelResult<Arc<SharedDev>> {
        Ok(Arc::new(SharedDev { tag: 9 }))
    }
}

fn opened_file() -> HostFile<EchoDev> {
    let mut file = HostFile { f_pos: 0, f_flags: 0, private_data: None };
    assert_eq!(open_callback::<EchoDev>(&mut file), 0);
    file
}

#[test]
fn release_then_reclaim_reconstructs_the_value_exclusively() {
    let b = Box::new(EchoDev { tag: 41 });
    let p = b.into_pointer();
    assert_eq!(p.borrow().tag, 41);
    let back = <Box<EchoDev> as PointerWrapper<EchoDev>>::from_pointer(p);
    assert_eq!(*back, EchoDev { tag: 41 });
}

#[test]
fn release_then_reclaim_reconstructs_the_value_shared() {
    let a = Arc::new(SharedDev { tag: 9 });
    let extra = a.clone();
    assert_eq!(Arc::strong_count(&extra), 2);
    let p = a.into_pointer();
    // Release does not deallocate: the other holder still counts it.
    assert_eq!(Arc::strong_count(&extra), 2);
    assert_eq!(p.borrow().tag, 9);
    let back = <Arc<SharedDev> as PointerWrapper<SharedDev>>::from_pointer(p);
    assert_eq!(*back, SharedDev { tag: 9 });
    assert_eq!(Arc::strong_count(&extra), 2);
    drop(back);
    assert_eq!(Arc::strong_count(&extra), 1);
}

#[test]
fn open_stores_an_instance_and_release_reclaims_it_once() {
    let mut file = opened_file();
    assert!(file.private_data.is_some());
    assert_eq!(release_callback::<EchoDev>(&mut file), 0);
    assert!(file.private_data.is_none());
}

#[test]
fn two_independent_opens_release_without_interference() {
    // The scenario: open followed immediately by release from two contexts
    // on two independent opens; each slot's address is reclaimed exactly
    // once, and taking a slot leaves the null marker behind.
    let mut first = opened_file();
    let mut second = opened_file();
    assert_eq!(release_callback::<EchoDev>(&mut first), 0);
    assert!(first.private_data.is_none());
    assert!(second.private_data.is_some());
    assert_eq!(release_callback::<EchoDev>(&mut second), 0);
    assert!(second.private_data.is_none());
}

#[test]
fn read_callback_transfers_and_advances_offset() {
    let file = opened_file();
    let mut off: i64 = 3;
    let (n, out) = read_callback::<EchoDev>(&file, vec![0; 10], 10, &mut off);
    assert_eq!(n, 5);
    assert_eq!(off, 8);
    assert_eq!(out, vec![104, 101, 108, 108, 111, 0, 0, 0, 0, 0]);
}

#[test]
fn read_callback_rejects_negative_offset_before_the_driver_runs() {
    let file = opened_file();
    let mut off: i64 = -1;
    let (n, out) = read_callback::<EchoDev>(&file, vec![0; 10], 10, &mut off);
    assert_eq!(n, -22);
    assert_eq!(off, -1);
    // The driver never ran: nothing was written into the buffer.
    assert_eq!(out, vec![0; 10]);
}

#[test]
fn read_callback_rejects_bad_length_before_anything_else() {
    let file = opened_file();
    let mut off: i64 = -1;
    let (n, out) = read_callback::<EchoDev>(&file, vec![0; 10], 11, &mut off);
    assert_eq!(n, -14);
    assert_eq!(off, -1);
    assert_eq!(out, vec![0; 10]);
}

#[test]
fn write_callback_counts_consumed_bytes_from_the_view() {
    let file = opened_file();
    let mut off: i64 = 0;
    // The driver consumes 4 of the 6 bytes; the host's count comes from the
    // reader's remaining length, not from the driver's word.
    let n = write_callback::<EchoDev>(&file, vec![1, 2, 3, 4, 5, 6], 6, &mut off);
    assert_eq!(n, 4);
    assert_eq!(off, 4);
}

#[test]
fn write_callback_rejects_negative_offset_and_bad_length() {
    let file = opened_file();
    let mut off: i64 = -7;
    assert_eq!(write_callback::<EchoDev>(&file, vec![1, 2], 2, &mut off), -22);
    assert_eq!(off, -7);
    let mut off2: i64 = 0;
    assert_eq!(write_callback::<EchoDev>(&file, vec![1, 2], 3, &mut off2), -14);
    assert_eq!(off2, 0);
}

#[test]
fn llseek_callback_converts_whence_and_offset() {
    let file = opened_file();
    assert_eq!(llseek_callback::<EchoDev>(&file, 100, 0), 100);
    assert_eq!(llseek_callback::<EchoDev>(&file, 5, 1), 10);
    assert_eq!(llseek_callback::<EchoDev>(&file, 5, 2), 20);
}

#[test]
fn llseek_callback_rejects_negative_absolute_offset_and_bad_whence() {
    let file = opened_file();
    assert_eq!(llseek_callback::<EchoDev>(&file, -5, 0), -22);
    assert_eq!(llseek_callback::<EchoDev>(&file, 0, 3), -22);
    assert_eq!(llseek_callback::<EchoDev>(&file, 0, -1), -22);
}

#[test]
fn ioctl_callback_routes_through_the_driver() {
    let file = opened_file();
    // Direction none: the driver's dispatcher hands cmd and arg to its pure
    // handler, which echoes the argument.
    let r = unlocked_ioctl_callback::<EchoDev>(&file, 0, 123, vec![]);
    assert_eq!(r, 123);
}

#[test]
fn compat_ioctl_callback_reports_the_driver_failure() {
    let file = opened_file();
    let r = compat_ioctl_callback::<EchoDev>(&file, 0, 0, vec![]);
    assert_eq!(r, -12);
}

#[test]
fn fsync_callback_checks_range_and_returns_count() {
    let file = opened_file();
    assert_eq!(fsync_callback::<EchoDev>(&file, 0, 10, 1), 3);
    assert_eq!(fsync_callback::<EchoDev>(&file, -1, 10, 0), -22);
    assert_eq!(fsync_callback::<EchoDev>(&file, 0, -10, 0), -22);
}

#[test]
fn file_handle_exposes_position_and_blocking_mode() {
    let f = File::new(42, 0);
    assert_eq!(f.pos(), 42);
    assert!(f.is_blocking());
    let nb = File::new(0, 2048);
    assert!(!nb.is_blocking());
    // The host reads its signed position field as unsigned.
    let wrapped = File::new(-1, 0);
    assert_eq!(wrapped.pos(), u64::MAX);
}
