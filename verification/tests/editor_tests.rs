use alias_search::editor::{KeyEvent, QueryBuffer, CLEAR_CHAR};

fn buffer_text(b: &QueryBuffer) -> String {
    b.chars().iter().collect()
}

fn type_str(b: &mut QueryBuffer, s: &str) {
    for c in s.chars() {
        assert!(b.step(KeyEvent::Char(c)));
    }
}

#[test]
fn append_then_backspace_restores_the_buffer() {
    let mut b = QueryBuffer::new();
    type_str(&mut b, "git st");
    let before = buffer_text(&b);
    assert!(b.step(KeyEvent::Char('x')));
    assert!(b.step(KeyEvent::Backspace));
    assert_eq!(buffer_text(&b), before);
}

#[test]
fn backspace_on_empty_buffer_is_a_no_op() {
    let mut b = QueryBuffer::new();
    assert!(b.step(KeyEvent::Backspace));
    assert_eq!(buffer_text(&b), "");
}

#[test]
fn clear_empties_any_buffer() {
    let mut b = QueryBuffer::new();
    type_str(&mut b, "git stash pop");
    assert!(b.step(KeyEvent::Char(CLEAR_CHAR)));
    assert_eq!(buffer_text(&b), "");
    // Clearing an already empty buffer keeps it empty.
    assert!(b.step(KeyEvent::Char(CLEAR_CHAR)));
    assert_eq!(buffer_text(&b), "");
}

#[test]
fn delete_word_drops_the_last_word() {
    let mut b = QueryBuffer::new();
    type_str(&mut b, "git co");
    assert!(b.step(KeyEvent::DeleteWord));
    assert_eq!(buffer_text(&b), "git");
}

#[test]
fn delete_word_on_single_token_empties_the_buffer() {
    let mut b = QueryBuffer::new();
    type_str(&mut b, "checkout");
    assert!(b.step(KeyEvent::DeleteWord));
    assert_eq!(buffer_text(&b), "");
}

#[test]
fn delete_word_keeps_earlier_words() {
    let mut b = QueryBuffer::new();
    type_str(&mut b, "git stash pop");
    assert!(b.step(KeyEvent::DeleteWord));
    assert_eq!(buffer_text(&b), "git stash");
}

#[test]
fn delete_word_on_trailing_space_drops_only_the_space() {
    let mut b = QueryBuffer::new();
    type_str(&mut b, "git ");
    assert!(b.step(KeyEvent::DeleteWord));
    assert_eq!(buffer_text(&b), "git");
}

#[test]
fn typing_then_backspace_yields_git_and_matches_for_git() {
    let mut b = QueryBuffer::new();
    for c in ['g', 'i', 't', 't'] {
        assert!(b.step(KeyEvent::Char(c)));
    }
    assert!(b.step(KeyEvent::Backspace));
    assert_eq!(buffer_text(&b), "git");
    let table = alias_search::table::get_table();
    let res = alias_search::engine::filter_and_sort(b.chars(), &table);
    // Every command containing "git" matches; only "ggl && ggp" does not.
    assert_eq!(res.len(), 149);
    for e in &res {
        assert!(e.command.contains("git"));
    }
}

#[test]
fn enter_and_escape_end_the_loop_without_editing() {
    let mut b = QueryBuffer::new();
    type_str(&mut b, "stash");
    assert!(!b.step(KeyEvent::Enter));
    assert_eq!(buffer_text(&b), "stash");
    assert!(!b.step(KeyEvent::Escape));
    assert_eq!(buffer_text(&b), "stash");
}

#[test]
fn unrecognized_keys_change_nothing() {
    let mut b = QueryBuffer::new();
    type_str(&mut b, "git");
    assert!(b.step(KeyEvent::Other));
    assert_eq!(buffer_text(&b), "git");
}
