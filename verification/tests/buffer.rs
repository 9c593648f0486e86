use robin_editor::buffer::DocumentBuffer;

#[test]
fn new_buffer_is_empty() {
    let b = DocumentBuffer::new();
    assert_eq!(b.len(), 0);
    assert_eq!(b.contents(), Vec::<u8>::new());
    assert!(b.language().is_none());
    assert!(b.style_scheme().is_none());
    assert!(!b.highlight_syntax());
}

#[test]
fn replace_contents_is_a_full_overwrite() {
    let mut b = DocumentBuffer::new();
    b.replace_contents(b"prior content".to_vec());
    b.replace_contents(b"new".to_vec());
    assert_eq!(b.contents(), b"new".to_vec());
    assert_eq!(b.len(), 3);
}

#[test]
fn tags_survive_a_content_replace() {
    let mut b = DocumentBuffer::new();
    b.set_language(Some("rust".to_string()));
    b.set_style_scheme(Some("solarized-light".to_string()));
    b.set_highlight_syntax(true);
    b.replace_contents(b"fn main() {}".to_vec());
    assert_eq!(b.language().map(|s| s.as_str()), Some("rust"));
    assert_eq!(b.style_scheme().map(|s| s.as_str()), Some("solarized-light"));
    assert!(b.highlight_syntax());
}

#[test]
fn clearing_tags() {
    let mut b = DocumentBuffer::new();
    b.set_language(Some("rust".to_string()));
    b.set_language(None);
    assert!(b.language().is_none());
}
