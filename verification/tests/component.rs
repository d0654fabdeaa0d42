use fourhills::html::Html;
use fourhills::{Model, Msg};

#[test]
fn initial_state_is_empty() {
    let m = Model::create();
    assert_eq!(m.text, "");
    assert!(m.log.is_empty());
    let h = m.view();
    assert_eq!(h.display, "");
    assert_eq!(h.menu.buttons.len(), 1);
    assert_eq!(h.menu.buttons[0].label, "Add Goblin");
    assert_eq!(h.menu.buttons[0].on_click, Msg::AddGoblin);
}

#[test]
fn add_goblin_appends_once_then_twice() {
    let mut m = Model::create();
    m.update(Msg::AddGoblin);
    assert_eq!(m.text, "Goblin");
    m.update(Msg::AddGoblin);
    assert_eq!(m.text, "GoblinGoblin");
}

#[test]
fn goblin_repeats_with_no_separator() {
    let mut m = Model::create();
    for _ in 0..5 {
        m.update(Msg::AddGoblin);
    }
    assert_eq!(m.text, "Goblin".repeat(5));
}

#[test]
fn update_always_asks_for_a_render() {
    let mut m = Model::create();
    assert!(m.update(Msg::AddGoblin));
    // Regardless of prior state.
    assert!(m.update(Msg::AddGoblin));
    assert!(m.update(Msg::AddGoblin));
}

#[test]
fn view_is_referentially_consistent() {
    let mut m = Model::create();
    m.update(Msg::AddGoblin);
    let h1: Html = m.view();
    let h2: Html = m.view();
    assert_eq!(h1, h2);
}

#[test]
fn view_shows_the_text_verbatim() {
    let mut m = Model::create();
    m.update(Msg::AddGoblin);
    m.update(Msg::AddGoblin);
    let h = m.view();
    assert_eq!(h.display, "GoblinGoblin");
    assert_eq!(h.menu.buttons.len(), 1);
    assert_eq!(h.menu.buttons[0].label, "Add Goblin");
}

#[test]
fn each_message_logs_one_entry() {
    let mut m = Model::create();
    m.update(Msg::AddGoblin);
    m.update(Msg::AddGoblin);
    assert_eq!(m.log, vec!["Added goblin".to_owned(), "Added goblin".to_owned()]);
}

#[test]
fn take_log_drains_the_sink_and_keeps_the_text() {
    let mut m = Model::create();
    m.update(Msg::AddGoblin);
    let entries = m.take_log();
    assert_eq!(entries, vec!["Added goblin".to_owned()]);
    assert!(m.log.is_empty());
    assert_eq!(m.text, "Goblin");
    assert!(m.take_log().is_empty());
}
