use lib::clipboard::{
    c_str_to_str, c_string_bytes, decode_clipboard_text, encode_clipboard_text, ClipboardBackend,
    ClipboardContext, ClipboardTextError, DummyClipboardContext,
};
use std::cell::RefCell;
use std::rc::Rc;

#[test]
fn clipboard_text_roundtrips_through_a_c_string() {
    for text in ["hello", "héllo wörld", "😀 ok", "a"] {
        let raw = encode_clipboard_text(text);
        assert_eq!(raw.last(), Some(&0));
        assert_eq!(decode_clipboard_text(Some(&raw)), Some(text.to_string()));
    }
}

#[test]
fn empty_null_or_invalid_clipboard_reads_as_none() {
    assert_eq!(decode_clipboard_text(None), None);
    assert_eq!(decode_clipboard_text(Some(&[0])), None);
    assert_eq!(decode_clipboard_text(Some(&[0xff, 0xfe, 0])), None);
    assert_eq!(decode_clipboard_text(Some(&[b'h', b'i', 0, b'x'])), Some("hi".to_string()));
    assert_eq!(encode_clipboard_text(""), vec![0]);
}

#[test]
fn text_with_nul_sets_an_empty_clipboard() {
    assert_eq!(encode_clipboard_text("a\0b"), vec![0]);
    assert_eq!(c_string_bytes("a\0b"), None);
    assert_eq!(c_string_bytes("ab"), Some(vec![b'a', b'b', 0]));
}

#[test]
fn c_str_reads_up_to_the_first_nul() {
    assert_eq!(c_str_to_str(&[b'a', 0, b'b', 0]), Some("a"));
    assert_eq!(c_str_to_str(&[0]), Some(""));
    assert_eq!(c_str_to_str(&[0xc3, 0]), None);
}

struct Recorder {
    text: Rc<RefCell<Option<String>>>,
    set: Rc<RefCell<Vec<String>>>,
}

impl ClipboardBackend for Recorder {
    fn get(&mut self) -> Option<String> {
        self.text.borrow().clone()
    }
    fn set(&mut self, value: &str) {
        self.set.borrow_mut().push(value.to_string());
    }
}

#[test]
fn context_keeps_the_backend_text_as_a_c_string() {
    let text = Rc::new(RefCell::new(Some("copied".to_string())));
    let set = Rc::new(RefCell::new(Vec::new()));
    let mut ctx = ClipboardContext::new(Recorder { text: text.clone(), set: set.clone() });
    assert_eq!(ctx.last_value(), &[0]);
    assert_eq!(ctx.get_text(), Ok(true));
    assert_eq!(ctx.last_value(), b"copied\0");
    *text.borrow_mut() = None;
    assert_eq!(ctx.get_text(), Ok(false));
    assert_eq!(ctx.last_value(), b"copied\0");
    *text.borrow_mut() = Some("bad\0text".to_string());
    assert_eq!(ctx.get_text(), Err(ClipboardTextError::InteriorNul));
    assert_eq!(ctx.last_value(), b"copied\0");

    assert!(ctx.set_text(b"pasted\0junk"));
    assert!(!ctx.set_text(&[0xff, 0]));
    assert_eq!(*set.borrow(), vec!["pasted".to_string()]);
}

#[test]
fn keep_text_follows_c_string_rules() {
    let mut ctx = ClipboardContext::dummy();
    assert_eq!(ctx.keep_text(Some("x".to_string())), Ok(true));
    assert_eq!(ctx.last_value(), b"x\0");
    assert_eq!(ctx.keep_text(None), Ok(false));
    assert_eq!(ctx.keep_text(Some("a\0".to_string())), Err(ClipboardTextError::InteriorNul));
    assert_eq!(ctx.last_value(), b"x\0");
}

#[test]
fn dummy_backend_is_empty() {
    let mut dummy = DummyClipboardContext;
    assert_eq!(dummy.get(), None);
    dummy.set("ignored");
    assert_eq!(dummy.get(), None);
    let mut ctx = ClipboardContext::dummy();
    assert_eq!(ctx.get_text(), Ok(false));
    assert!(ctx.set_text(b"anything\0"));
    assert_eq!(ctx.last_value(), &[0]);
}
