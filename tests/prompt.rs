use gitsync::{must_ask_remote, Key, Prompt};

fn typed(p: &Prompt) -> (Vec<char>, Vec<char>, Vec<char>) {
    p.segments()
}

#[test]
fn new_prompt_is_empty() {
    let p = Prompt::new("remote");
    assert_eq!(p.label_text(), "remote");
    assert!(!p.is_done());
    assert_eq!(typed(&p), (vec![], vec![], vec![]));
}

#[test]
fn typing_and_editing() {
    let mut p = Prompt::new("remote");
    for c in "abc".chars() {
        assert!(!p.handle_key(Key::Char(c)));
    }
    assert!(!p.handle_key(Key::Left));
    assert!(!p.handle_key(Key::Left));
    assert_eq!(typed(&p), (vec!['a'], vec!['b'], vec!['c']));
    assert!(!p.handle_key(Key::Backspace));
    assert_eq!(typed(&p), (vec![], vec!['b'], vec!['c']));
    assert!(!p.handle_key(Key::Backspace));
    assert_eq!(typed(&p), (vec![], vec!['b'], vec!['c']));
    assert!(!p.handle_key(Key::Tab));
    assert!(!p.handle_key(Key::Right));
    assert!(!p.handle_key(Key::Right));
    assert!(!p.handle_key(Key::Right));
    assert_eq!(typed(&p), (vec!['\t', 'b', 'c'], vec![], vec![]));
    assert!(!p.handle_key(Key::Enter));
    assert!(p.is_done());
    assert_eq!(p.input_len(), 3);
    assert_eq!(p.into_input(), vec!['\t', 'b', 'c']);
}

#[test]
fn interrupt_is_reported() {
    let mut p = Prompt::new("x");
    assert!(p.handle_key(Key::Interrupt));
    assert!(!p.is_done());
}

#[test]
fn remote_is_asked_when_needed() {
    assert!(must_ask_remote(true, true));
    assert!(must_ask_remote(false, false));
    assert!(!must_ask_remote(false, true));
}
