use kernel::printk::{LOG_LINE_MAX, LogLineWriter};

#[test]
fn a_new_line_buffer_is_empty() {
    let w = LogLineWriter::new();
    assert_eq!(w.as_bytes(), &[] as &[u8]);
}

#[test]
fn write_str_appends_text() {
    let mut w = LogLineWriter::new();
    assert!(w.write_str(b"hello").is_ok());
    assert_eq!(w.as_bytes(), b"hello");
    assert!(w.write_str(b", world").is_ok());
    assert_eq!(w.as_bytes(), b"hello, world");
}

#[test]
fn a_line_never_grows_past_the_console_capacity() {
    let mut w = LogLineWriter::new();
    let chunk = vec![b'a'; 1000];
    assert!(w.write_str(&chunk).is_ok());
    assert_eq!(w.as_bytes().len(), LOG_LINE_MAX);
    // Whatever comes after the bound is dropped.
    assert!(w.write_str(b"more").is_ok());
    assert_eq!(w.as_bytes().len(), LOG_LINE_MAX);
    assert!(w.as_bytes().iter().all(|&b| b == b'a'));
}

#[test]
fn the_default_line_buffer_is_empty_too() {
    let w = LogLineWriter::default();
    assert_eq!(w.as_bytes().len(), 0);
}
