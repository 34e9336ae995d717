use searchable_pick_list::cursor::State as CursorState;
use searchable_pick_list::geometry::{Padding, Point, Rectangle};
use searchable_pick_list::keyboard::{KeyCode, Modifiers, Platform};
use searchable_pick_list::widget::{
    Event, Layout, Output, Reaction, SearchablePickList, State, Status,
};

const OPTIONS: [&str; 3] = ["red", "green", "blue"];

fn layout() -> Layout {
    Layout {
        bounds: Rectangle { x: 0, y: 0, width: 200, height: 30 },
        text_bounds: Rectangle { x: 5, y: 5, width: 150, height: 20 },
    }
}

fn widths_of(list: &SearchablePickList<&'static str>) -> Vec<u32> {
    (0..=list.value.len()).map(|i| 10 * i as u32).collect()
}

fn control(text: &str, state: State<&'static str>) -> SearchablePickList<&'static str> {
    SearchablePickList::new(state, "pick one", text, Some("green"), OPTIONS.to_vec())
}

fn send(
    list: &mut SearchablePickList<&'static str>,
    event: Event,
    at: Point,
    now_ms: u64,
) -> Reaction<&'static str> {
    let widths = widths_of(list);
    list.on_event(event, layout(), at, now_ms, &widths, None)
}

fn send_with_clipboard(
    list: &mut SearchablePickList<&'static str>,
    event: Event,
    clipboard: Option<String>,
) -> Reaction<&'static str> {
    let widths = widths_of(list);
    list.on_event(event, layout(), Point::new(0, 0), 0, &widths, clipboard)
}

fn changed_text(r: &Reaction<&'static str>) -> Option<String> {
    match &r.output {
        Some(Output::Changed(text)) => Some(text.clone()),
        _ => None,
    }
}

fn command() -> Modifiers {
    Modifiers { shift: false, control: true, alt: false, logo: false }
}

fn shift() -> Modifiers {
    Modifiers { shift: true, control: false, alt: false, logo: false }
}

/// Opens the control with a press, so that later presses land in the text.
fn opened(text: &str) -> SearchablePickList<&'static str> {
    let mut list = control(text, State::new());
    let r = send(&mut list, Event::Pressed, Point::new(190, 15), 0);
    assert_eq!(r.status, Status::Captured);
    list
}

#[test]
fn backspace_at_end_removes_last_character() {
    let mut state = State::focused();
    state.move_cursor_to(5);
    let mut list = control("hello", state);
    let r = send(&mut list, Event::KeyPressed(KeyCode::Backspace), Point::new(0, 0), 0);
    assert_eq!(list.value.to_string(), "hell");
    assert_eq!(list.state.cursor.state(&list.value), CursorState::Index(4));
    assert_eq!(changed_text(&r), Some("hell".to_string()));
    assert_eq!(r.status, Status::Captured);
}

#[test]
fn double_click_selects_word_under_pointer() {
    let mut list = opened("foo bar");
    let at = Point::new(57, 10);
    send(&mut list, Event::Pressed, at, 1000);
    assert_eq!(list.state.cursor.state(&list.value), CursorState::Index(5));
    assert!(list.state.is_dragging);
    send(&mut list, Event::Pressed, at, 1100);
    assert_eq!(list.state.cursor.selection(&list.value), Some((4, 7)));
    assert!(!list.state.is_dragging);
}

#[test]
fn press_on_closed_control_opens_and_hovers_selection() {
    let mut list = control("", State::new());
    let r = send(&mut list, Event::Pressed, Point::new(50, 10), 0);
    assert!(list.state.pick_list.is_open);
    assert_eq!(list.state.pick_list.hovered_option, Some(1));
    assert!(list.state.is_focused);
    assert_eq!(r.status, Status::Captured);
    assert!(r.output.is_none());
}

#[test]
fn press_on_closed_control_without_selection_hovers_nothing() {
    let mut list = SearchablePickList::new(State::new(), "", "", None, OPTIONS.to_vec());
    send(&mut list, Event::Pressed, Point::new(50, 10), 0);
    assert!(list.state.pick_list.is_open);
    assert_eq!(list.state.pick_list.hovered_option, None);
    let mut unknown =
        SearchablePickList::new(State::new(), "", "", Some("purple"), OPTIONS.to_vec());
    send(&mut unknown, Event::Pressed, Point::new(50, 10), 0);
    assert_eq!(unknown.state.pick_list.hovered_option, None);
}

#[test]
fn menu_pick_wins_over_any_press() {
    for at in [Point::new(50, 10), Point::new(500, 500), Point::new(190, 10)] {
        let mut list = opened("abc");
        list.state.pick_list.last_selection = Some("blue");
        let r = send(&mut list, Event::Pressed, at, 5000);
        assert!(matches!(r.output, Some(Output::Selected("blue"))));
        assert!(!list.state.pick_list.is_open);
        assert!(!list.state.is_focused);
        assert_eq!(r.status, Status::Captured);
        assert!(list.state.pick_list.last_selection.is_none());
    }
}

#[test]
fn copy_hands_selection_to_clipboard() {
    let mut list = control("abcdef", State::focused());
    list.state.cursor.select_range(1, 3);
    send(&mut list, Event::ModifiersChanged(command()), Point::new(0, 0), 0);
    let r = send(&mut list, Event::KeyPressed(KeyCode::C), Point::new(0, 0), 0);
    assert_eq!(r.copied, Some("bc".to_string()));
    assert_eq!(list.value.to_string(), "abcdef");
    assert!(r.output.is_none());
}

#[test]
fn copy_without_selection_does_nothing() {
    let mut list = control("abcdef", State::focused());
    send(&mut list, Event::ModifiersChanged(command()), Point::new(0, 0), 0);
    let r = send(&mut list, Event::KeyPressed(KeyCode::C), Point::new(0, 0), 0);
    assert_eq!(r.copied, None);
    assert_eq!(list.value.to_string(), "abcdef");
}

#[test]
fn cut_copies_and_removes_selection() {
    let mut list = control("abcdef", State::focused());
    list.state.cursor.select_range(4, 2);
    send(&mut list, Event::ModifiersChanged(command()), Point::new(0, 0), 0);
    let r = send(&mut list, Event::KeyPressed(KeyCode::X), Point::new(0, 0), 0);
    assert_eq!(r.copied, Some("cd".to_string()));
    assert_eq!(list.value.to_string(), "abef");
    assert_eq!(changed_text(&r), Some("abef".to_string()));
    let again = send(&mut list, Event::KeyPressed(KeyCode::X), Point::new(0, 0), 0);
    assert_eq!(again.copied, None);
    assert!(again.output.is_none());
    assert_eq!(list.value.to_string(), "abef");
}

#[test]
fn triple_click_selects_everything() {
    for x in [20, 40, 70] {
        let mut list = opened("some text");
        let at = Point::new(x, 10);
        send(&mut list, Event::Pressed, at, 1000);
        send(&mut list, Event::Pressed, at, 1100);
        send(&mut list, Event::Pressed, at, 1200);
        assert_eq!(list.state.cursor.selection(&list.value), Some((0, 9)));
    }
}

#[test]
fn press_outside_closes_and_lets_event_through() {
    let mut list = opened("abc");
    let r = send(&mut list, Event::Pressed, Point::new(300, 10), 10);
    assert_eq!(r.status, Status::Ignored);
    assert!(!list.state.pick_list.is_open);
    assert!(!list.state.is_focused);
}

#[test]
fn press_in_disclosure_zone_closes() {
    let mut list = opened("abc");
    let r = send(&mut list, Event::Pressed, Point::new(175, 10), 10);
    assert_eq!(r.status, Status::Captured);
    assert!(!list.state.pick_list.is_open);
    assert!(!list.state.is_focused);
}

#[test]
fn disclosure_zone_grows_with_padding() {
    let mut list = control("abc", State::new()).padding(Padding::uniform(10));
    send(&mut list, Event::Pressed, Point::new(50, 10), 0);
    let r = send(&mut list, Event::Pressed, Point::new(155, 10), 10);
    assert_eq!(r.status, Status::Captured);
    assert!(!list.state.pick_list.is_open);
}

#[test]
fn press_left_of_text_puts_caret_at_start() {
    let mut list = opened("abc");
    list.state.cursor.move_to(2);
    send(&mut list, Event::Pressed, Point::new(3, 10), 1000);
    assert_eq!(list.state.cursor.state(&list.value), CursorState::Index(0));
    assert!(list.state.is_dragging);
}

#[test]
fn drag_extends_selection_from_anchor() {
    let mut list = opened("abcdefgh");
    send(&mut list, Event::Pressed, Point::new(25, 10), 1000);
    assert_eq!(list.state.cursor.state(&list.value), CursorState::Index(2));
    let r = send(&mut list, Event::Moved(Point::new(65, 10)), Point::new(0, 0), 1010);
    assert_eq!(r.status, Status::Captured);
    assert_eq!(list.state.cursor.selection(&list.value), Some((2, 6)));
    send(&mut list, Event::Released, Point::new(0, 0), 1020);
    assert!(!list.state.is_dragging);
    let after = send(&mut list, Event::Moved(Point::new(85, 10)), Point::new(0, 0), 1030);
    assert_eq!(after.status, Status::Ignored);
    assert_eq!(list.state.cursor.selection(&list.value), Some((2, 6)));
}

#[test]
fn select_all_first_click_selects_once() {
    let mut list = control("hello", State::new()).select_all_first_click(true);
    send(&mut list, Event::Pressed, Point::new(190, 15), 0);
    assert!(list.state.first_click);
    send(&mut list, Event::Pressed, Point::new(25, 10), 1000);
    assert_eq!(list.state.cursor.selection(&list.value), Some((0, 5)));
    assert!(!list.state.first_click);
    send(&mut list, Event::Pressed, Point::new(25, 10), 5000);
    assert_eq!(list.state.cursor.state(&list.value), CursorState::Index(2));
}

#[test]
fn typing_inserts_at_caret() {
    let mut list = control("ac", State::focused());
    list.state.cursor.move_to(1);
    let r = send(&mut list, Event::CharacterReceived('b'), Point::new(0, 0), 0);
    assert_eq!(changed_text(&r), Some("abc".to_string()));
    assert_eq!(list.state.cursor.state(&list.value), CursorState::Index(2));
}

#[test]
fn typing_is_ignored_without_focus_or_for_controls() {
    let mut list = control("ac", State::new());
    let r = send(&mut list, Event::CharacterReceived('b'), Point::new(0, 0), 0);
    assert_eq!(r.status, Status::Ignored);
    assert_eq!(list.value.to_string(), "ac");
    let mut focused = control("ac", State::focused());
    let c = send(&mut focused, Event::CharacterReceived('\u{8}'), Point::new(0, 0), 0);
    assert_eq!(c.status, Status::Ignored);
    assert_eq!(focused.value.to_string(), "ac");
    send(&mut focused, Event::ModifiersChanged(command()), Point::new(0, 0), 0);
    send(&mut focused, Event::CharacterReceived('x'), Point::new(0, 0), 0);
    assert_eq!(focused.value.to_string(), "ac");
}

#[test]
fn word_jump_backspace_removes_previous_word() {
    let mut list = control("foo bar", State::focused());
    list.state.move_cursor_to_end();
    send(&mut list, Event::ModifiersChanged(command()), Point::new(0, 0), 0);
    let r = send(&mut list, Event::KeyPressed(KeyCode::Backspace), Point::new(0, 0), 0);
    assert_eq!(changed_text(&r), Some("foo ".to_string()));
}

#[test]
fn word_jump_delete_removes_next_word_on_mac() {
    let mut list = control("foo bar", State::focused()).platform(Platform::Mac);
    let alt = Modifiers { shift: false, control: false, alt: true, logo: false };
    send(&mut list, Event::ModifiersChanged(alt), Point::new(0, 0), 0);
    send(&mut list, Event::KeyPressed(KeyCode::Delete), Point::new(0, 0), 0);
    assert_eq!(list.value.to_string(), " bar");
}

#[test]
fn arrows_home_and_end() {
    let mut list = control("abcdef", State::focused());
    list.state.move_cursor_to(3);
    send(&mut list, Event::KeyPressed(KeyCode::Left), Point::new(0, 0), 0);
    assert_eq!(list.state.cursor.state(&list.value), CursorState::Index(2));
    send(&mut list, Event::KeyPressed(KeyCode::Right), Point::new(0, 0), 0);
    send(&mut list, Event::KeyPressed(KeyCode::Right), Point::new(0, 0), 0);
    assert_eq!(list.state.cursor.state(&list.value), CursorState::Index(4));
    send(&mut list, Event::ModifiersChanged(shift()), Point::new(0, 0), 0);
    send(&mut list, Event::KeyPressed(KeyCode::Home), Point::new(0, 0), 0);
    assert_eq!(list.state.cursor.selection(&list.value), Some((0, 4)));
    send(&mut list, Event::KeyPressed(KeyCode::End), Point::new(0, 0), 0);
    assert_eq!(list.state.cursor.selection(&list.value), Some((4, 6)));
    send(&mut list, Event::KeyPressed(KeyCode::Left), Point::new(0, 0), 0);
    assert_eq!(list.state.cursor.selection(&list.value), Some((4, 5)));
    send(&mut list, Event::ModifiersChanged(Modifiers::default()), Point::new(0, 0), 0);
    send(&mut list, Event::KeyPressed(KeyCode::Home), Point::new(0, 0), 0);
    assert_eq!(list.state.cursor.state(&list.value), CursorState::Index(0));
    send(&mut list, Event::KeyPressed(KeyCode::End), Point::new(0, 0), 0);
    assert_eq!(list.state.cursor.state(&list.value), CursorState::Index(6));
}

#[test]
fn select_all_key_needs_command() {
    let mut list = control("abc", State::focused());
    send(&mut list, Event::KeyPressed(KeyCode::A), Point::new(0, 0), 0);
    assert_eq!(list.state.cursor.selection(&list.value), None);
    send(&mut list, Event::ModifiersChanged(command()), Point::new(0, 0), 0);
    send(&mut list, Event::KeyPressed(KeyCode::A), Point::new(0, 0), 0);
    assert_eq!(list.state.cursor.selection(&list.value), Some((0, 3)));
}

#[test]
fn paste_reads_clipboard_once_while_key_repeats() {
    let mut list = control("ab", State::focused());
    list.state.move_cursor_to(1);
    send(&mut list, Event::ModifiersChanged(command()), Point::new(0, 0), 0);
    let paste = Event::KeyPressed(KeyCode::V);
    assert!(list.wants_clipboard(&paste));
    let r = send_with_clipboard(&mut list, paste, Some("x\ny".to_string()));
    assert_eq!(changed_text(&r), Some("axyb".to_string()));
    assert_eq!(list.state.cursor.state(&list.value), CursorState::Index(3));
    assert!(!list.wants_clipboard(&paste));
    send_with_clipboard(&mut list, paste, Some("ignored".to_string()));
    assert_eq!(list.value.to_string(), "axyxyb");
    send(&mut list, Event::KeyReleased(KeyCode::V), Point::new(0, 0), 0);
    assert!(list.state.is_pasting.is_none());
    assert!(list.wants_clipboard(&paste));
}

#[test]
fn paste_with_unreadable_clipboard_inserts_nothing() {
    let mut list = control("ab", State::focused());
    send(&mut list, Event::ModifiersChanged(command()), Point::new(0, 0), 0);
    let r = send_with_clipboard(&mut list, Event::KeyPressed(KeyCode::V), None);
    assert_eq!(changed_text(&r), Some("ab".to_string()));
}

#[test]
fn v_without_command_drops_paste_and_modifier_change_too() {
    let mut list = control("ab", State::focused());
    send(&mut list, Event::ModifiersChanged(command()), Point::new(0, 0), 0);
    send_with_clipboard(&mut list, Event::KeyPressed(KeyCode::V), Some("z".to_string()));
    assert!(list.state.is_pasting.is_some());
    send(&mut list, Event::ModifiersChanged(shift()), Point::new(0, 0), 0);
    assert!(list.state.is_pasting.is_none());
    send(&mut list, Event::ModifiersChanged(command()), Point::new(0, 0), 0);
    send_with_clipboard(&mut list, Event::KeyPressed(KeyCode::V), Some("z".to_string()));
    send(&mut list, Event::ModifiersChanged(Modifiers::default()), Point::new(0, 0), 0);
    send(&mut list, Event::KeyPressed(KeyCode::V), Point::new(0, 0), 0);
    assert!(list.state.is_pasting.is_none());
}

#[test]
fn enter_submits_only_when_configured() {
    let mut plain = control("ab", State::focused());
    let r = send(&mut plain, Event::KeyPressed(KeyCode::Enter), Point::new(0, 0), 0);
    assert!(r.output.is_none());
    assert_eq!(r.status, Status::Captured);
    let mut submitting = control("ab", State::focused()).on_submit();
    let s = send(&mut submitting, Event::KeyPressed(KeyCode::Enter), Point::new(0, 0), 0);
    assert!(matches!(s.output, Some(Output::Submitted)));
}

#[test]
fn escape_drops_focus_drag_paste_and_modifiers() {
    let mut list = control("ab", State::focused());
    list.state.is_dragging = true;
    send(&mut list, Event::ModifiersChanged(command()), Point::new(0, 0), 0);
    send_with_clipboard(&mut list, Event::KeyPressed(KeyCode::V), Some("z".to_string()));
    send(&mut list, Event::KeyPressed(KeyCode::Escape), Point::new(0, 0), 0);
    assert!(!list.state.is_focused);
    assert!(!list.state.is_dragging);
    assert!(list.state.is_pasting.is_none());
    assert_eq!(list.state.keyboard_modifiers, Modifiers::default());
    let r = send(&mut list, Event::KeyPressed(KeyCode::Left), Point::new(0, 0), 0);
    assert_eq!(r.status, Status::Ignored);
}

#[test]
fn keys_are_ignored_without_focus() {
    let mut list = control("ab", State::new());
    let r = send(&mut list, Event::KeyPressed(KeyCode::Backspace), Point::new(0, 0), 0);
    assert_eq!(r.status, Status::Ignored);
    assert_eq!(list.value.to_string(), "ab");
    let k = send(&mut list, Event::KeyReleased(KeyCode::V), Point::new(0, 0), 0);
    assert_eq!(k.status, Status::Ignored);
    send(&mut list, Event::ModifiersChanged(command()), Point::new(0, 0), 0);
    assert_eq!(list.state.keyboard_modifiers, Modifiers::default());
}

#[test]
fn state_helpers() {
    let mut state: State<&'static str> = State::new();
    assert!(!state.is_focused());
    state.focus();
    assert!(state.is_focused());
    state.unfocus();
    assert!(!state.is_focused());
    assert!(State::<&'static str>::focused().is_focused());
    let list = control("hello", State::new());
    let mut s = list.into_state();
    s.select_all();
    let v = searchable_pick_list::value::Value::new("hello");
    assert_eq!(s.cursor().selection(&v), Some((0, 5)));
    s.move_cursor_to_end();
    assert_eq!(s.cursor().state(&v), CursorState::Index(5));
    s.move_cursor_to_front();
    assert_eq!(s.cursor().state(&v), CursorState::Index(0));
}

#[test]
fn builders_set_configuration() {
    let list = control("x", State::new())
        .max_width(300)
        .padding(Padding::uniform(4))
        .size(18)
        .options_empty_message("nothing".to_string());
    assert_eq!(list.max_width, 300);
    assert_eq!(list.padding.horizontal(), 8);
    assert_eq!(list.size, Some(18));
    assert_eq!(list.options_empty_message, Some("nothing".to_string()));
    assert_eq!(list.placeholder, "pick one");
    assert!(!list.state().is_focused());
}

#[test]
fn overlay_only_while_open() {
    let mut list = control("abc", State::new()).size(14);
    assert_eq!(list.overlay(layout().bounds), None);
    send(&mut list, Event::Pressed, Point::new(50, 10), 0);
    let menu = list.overlay(layout().bounds).unwrap();
    assert_eq!(menu.width, 200);
    assert_eq!(menu.hovered_option, Some(1));
    assert_eq!(menu.text_size, Some(14));
    let wide = Rectangle { x: 0, y: 0, width: 100_000, height: 30 };
    assert_eq!(list.overlay(wide).unwrap().width, u16::MAX);
}

#[test]
fn disclosure_zone_reaches_right_edge_of_narrow_control() {
    let narrow = Layout {
        bounds: Rectangle { x: 0, y: 0, width: 20, height: 30 },
        text_bounds: Rectangle { x: 2, y: 5, width: 16, height: 20 },
    };
    let mut list = control("abc", State::new());
    let w = widths_of(&list);
    list.on_event(Event::Pressed, narrow, Point::new(10, 10), 0, &w, None);
    assert!(list.state.pick_list.is_open);
    let r = list.on_event(Event::Pressed, narrow, Point::new(20, 10), 1000, &w, None);
    assert_eq!(r.status, Status::Captured);
    assert!(!list.state.pick_list.is_open);
    assert!(!list.state.is_focused);
}
