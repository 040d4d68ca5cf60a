use std::cell::Cell;
use std::rc::Rc;

use underanalyzer::dynlib::free_cs_string;
use underanalyzer::primitives::CsString;
use underanalyzer::primitives::RawArray;
use underanalyzer::primitives::RustStr;

struct DropCounter {
    counter: Rc<Cell<usize>>,
}

impl Drop for DropCounter {
    fn drop(&mut self) {
        self.counter.set(self.counter.get() + 1);
    }
}

#[test]
fn raw_array_keeps_elements() {
    let array = RawArray::from_vec(vec![10u32, 20, 30]);
    assert_eq!(array.len(), 3);
    assert_eq!(*array.get(0), 10);
    assert_eq!(*array.get(1), 20);
    assert_eq!(*array.get(2), 30);
}

#[test]
fn raw_array_drops_each_element_exactly_once() {
    let counter = Rc::new(Cell::new(0usize));
    let elements: Vec<DropCounter> = (0..5)
        .map(|_| DropCounter { counter: Rc::clone(&counter) })
        .collect();
    let array = RawArray::from_vec(elements);
    assert_eq!(counter.get(), 0, "no element may be freed while the array lives");
    drop(array);
    assert_eq!(counter.get(), 5, "every element must be freed exactly once");
}

#[test]
fn raw_array_of_empty_vec() {
    let array: RawArray<u8> = RawArray::from_vec(Vec::new());
    assert_eq!(array.len(), 0);
}

#[test]
fn rust_str_wraps_and_reads_back() {
    let name = String::from("gml_Script_test");
    let view = RustStr::from_str(name.as_str());
    assert_eq!(view.as_str(), "gml_Script_test");
}

#[test]
fn rust_str_empty_singleton() {
    let view = RustStr::empty();
    assert_eq!(view.as_str(), "");
}

#[test]
fn cs_string_reads_valid_utf8() {
    let handle = CsString::from_raw_parts(0x1000, b"hello".to_vec());
    let text = handle.to_str().expect("valid UTF-8 must be accepted");
    assert_eq!(text, "hello");
}

#[test]
fn cs_string_rejects_invalid_utf8() {
    let handle = CsString::from_raw_parts(0x1000, vec![0xFF, 0xFE]);
    let err = handle.to_str().expect_err("invalid UTF-8 must be rejected");
    assert_eq!(err.message().as_str(), "returned bytes are not valid UTF-8");
    assert_eq!(err.contexts(), &vec!["validating UTF-8".to_owned()]);
}

#[test]
fn cs_string_release_returns_the_address() {
    let handle = CsString::from_raw_parts(0xDEAD, b"x".to_vec());
    assert_eq!(free_cs_string(handle), 0xDEAD);
}

#[test]
fn empty_handle_is_accepted_by_release() {
    // A zero-length handle still carries an address that release must
    // accept without reading any bytes through it.
    let handle = CsString::from_raw_parts(0x7777, Vec::new());
    assert_eq!(free_cs_string(handle), 0x7777);
}
