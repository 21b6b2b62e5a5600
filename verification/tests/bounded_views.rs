use kernel::error::Error;
use kernel::user_ptr::UserSlicePtr;

#[test]
fn new_accepts_matching_length() {
    let u = UserSlicePtr::new(vec![1, 2, 3], 3).unwrap();
    assert_eq!(u.len(), 3);
}

#[test]
fn new_rejects_mismatched_length_as_addressing_failure() {
    match UserSlicePtr::new(vec![1, 2, 3], 4) {
        Err(e) => assert_eq!(e, Error::EFAULT),
        Ok(_) => panic!("a bad declaration must not validate"),
    }
    match UserSlicePtr::new(vec![1, 2, 3], 2) {
        Err(e) => assert_eq!(e, Error::EFAULT),
        Ok(_) => panic!("a bad declaration must not validate"),
    }
}

#[test]
fn reader_transfers_min_of_request_and_remaining() {
    // L = 5; requests of 3 then 10 transfer exactly min(K, remaining).
    let u = UserSlicePtr::new(vec![10, 11, 12, 13, 14], 5).unwrap();
    let mut r = u.reader();
    assert_eq!(r.len(), 5);
    let first = r.read(3);
    assert_eq!(first, vec![10, 11, 12]);
    assert_eq!(r.len(), 2);
    let second = r.read(10);
    assert_eq!(second, vec![13, 14]);
    assert_eq!(r.len(), 0);
    // Nothing is left: the total over the lifetime never passes L.
    let third = r.read(1);
    assert_eq!(third.len(), 0);
    assert_eq!(r.len(), 0);
}

#[test]
fn reader_read_all_drains() {
    let u = UserSlicePtr::new(vec![7, 8, 9], 3).unwrap();
    let mut r = u.reader();
    let one = r.read(1);
    assert_eq!(one, vec![7]);
    let rest = r.read_all();
    assert_eq!(rest, vec![8, 9]);
    assert_eq!(r.len(), 0);
}

#[test]
fn writer_transfers_min_of_source_and_remaining() {
    let u = UserSlicePtr::new(vec![0; 4], 4).unwrap();
    let mut w = u.writer();
    assert_eq!(w.len(), 4);
    let n = w.write(&[9, 8, 7]);
    assert_eq!(n, 3);
    assert_eq!(w.len(), 1);
    let m = w.write(&[6, 5]);
    assert_eq!(m, 1);
    assert_eq!(w.len(), 0);
    // A further write transfers nothing: the bound was reached.
    let z = w.write(&[1]);
    assert_eq!(z, 0);
    assert_eq!(w.into_data(), vec![9, 8, 7, 6]);
}

#[test]
fn writer_leaves_bytes_past_position_untouched() {
    let u = UserSlicePtr::new(vec![100, 100, 100, 100, 100], 5).unwrap();
    let mut w = u.writer();
    let n = w.write(&[1, 2]);
    assert_eq!(n, 2);
    assert_eq!(w.into_data(), vec![1, 2, 100, 100, 100]);
}

#[test]
fn empty_view_transfers_nothing() {
    let u = UserSlicePtr::new(vec![], 0).unwrap();
    let mut w = u.writer();
    assert_eq!(w.len(), 0);
    assert_eq!(w.write(&[1, 2, 3]), 0);
    assert_eq!(w.into_data(), Vec::<u8>::new());
}
