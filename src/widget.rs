//! The searchable pick list: a text field joined to a dropdown of options, and
//! the state machine that turns input events into edits, cursor moves,
//! dropdown transitions and output messages.
use vstd::prelude::*;
use vstd::std_specs::cmp::PartialEqSpec;
use crate::cursor::Cursor;
use crate::geometry::{Padding, Point, Rectangle};
use crate::editor::{self, backspaced, deleted, pasted, inserted};
use crate::hit_test::{cursor_position_spec, find_cursor_position, monotone};
use crate::keyboard::{KeyCode, Modifiers, Platform, is_jump_modifier_pressed, jump_spec};
use crate::mouse::{Click, ClickKind};
use crate::value::{Value, control_of, is_control, next_word_end, previous_word_start, strip_controls};

verus! {

/// The width, in pixels, of the zone at the right edge of an open control
/// whose press closes the dropdown.
pub const DISCLOSURE_WIDTH: i64 = 30;

/// Where the control and its text box lie on the screen.
#[derive(Clone, Copy, Debug, PartialEq, Eq, Structural)]
pub struct Layout {
    pub bounds: Rectangle,
    pub text_bounds: Rectangle,
}

/// The dropdown part of the state. The menu that lists the options moves
/// `hovered_option` and, when an option is picked, fills `last_selection`.
pub struct PickListState<T> {
    pub is_open: bool,
    pub hovered_option: Option<usize>,
    pub last_selection: Option<T>,
}

/// The state of a searchable pick list, kept across events.
pub struct State<T> {
    pub pick_list: PickListState<T>,
    pub is_focused: bool,
    pub is_dragging: bool,
    /// The text of the paste in progress, reused while the paste key repeats.
    pub is_pasting: Option<Value>,
    pub last_click: Option<Click>,
    pub cursor: Cursor,
    pub keyboard_modifiers: Modifiers,
    /// Armed when a press opens the control in select-all-on-first-click mode;
    /// the next single click in the text then selects everything and disarms it.
    pub first_click: bool,
}

/// An input event, as far as the control tells events apart.
#[derive(Clone, Copy, Debug, PartialEq, Eq, Structural)]
pub enum Event {
    /// The primary mouse button, or a finger, went down.
    Pressed,
    /// The primary mouse button, or a finger, went up or was lost.
    Released,
    /// The pointer, or a finger, moved to a position.
    Moved(Point),
    /// A character was typed.
    CharacterReceived(char),
    KeyPressed(KeyCode),
    KeyReleased(KeyCode),
    ModifiersChanged(Modifiers),
    /// Any other event, which the control ignores.
    Other,
}

/// Whether the control consumed an event.
#[derive(Clone, Copy, Debug, PartialEq, Eq, Structural)]
pub enum Status {
    Ignored,
    Captured,
}

/// A message for the application.
pub enum Output<T> {
    /// The text changed; it now reads as given.
    Changed(String),
    /// An option of the dropdown was picked.
    Selected(T),
    /// Enter was pressed in a control that submits.
    Submitted,
}

/// What the menu of an open control is to show: its width, the padding and
/// text size of its entries, and the option it hovers.
#[derive(Clone, Copy, Debug, PartialEq, Eq, Structural)]
pub struct MenuRequest {
    pub width: u16,
    pub padding: Padding,
    pub text_size: Option<u16>,
    pub hovered_option: Option<usize>,
}

/// What handling one event produced.
pub struct Reaction<T> {
    pub status: Status,
    pub output: Option<Output<T>>,
    /// Text for the clipboard.
    pub copied: Option<String>,
}

impl<T> PickListState<T> {
    /// A closed dropdown with nothing hovered or picked.
    pub fn new() -> (r: PickListState<T>)
        ensures
            !r.is_open,
            r.hovered_option is None,
            r.last_selection is None,
    {
        PickListState { is_open: false, hovered_option: None, last_selection: None }
    }
}

impl<T> State<T> {
    /// The state of a control that nobody has used yet, with or without focus.
    pub open spec fn initial(focused: bool) -> State<T> {
        State {
            pick_list: PickListState { is_open: false, hovered_option: None, last_selection: None },
            is_focused: focused,
            is_dragging: false,
            is_pasting: None,
            last_click: None,
            cursor: Cursor::caret(0),
            keyboard_modifiers: Modifiers::none(),
            first_click: false,
        }
    }

    fn with_focus(is_focused: bool) -> (r: State<T>)
        ensures
            r == State::<T>::initial(is_focused),
    {
        State {
            pick_list: PickListState::new(),
            is_focused,
            is_dragging: false,
            is_pasting: None,
            last_click: None,
            cursor: Cursor::default(),
            keyboard_modifiers: Modifiers::default(),
            first_click: false,
        }
    }

    /// Creates the state of an unfocused control.
    pub fn new() -> (r: State<T>)
        ensures
            r == State::<T>::initial(false),
    {
        State::with_focus(false)
    }

    /// Creates the state of a focused control.
    pub fn focused() -> (r: State<T>)
        ensures
            r == State::<T>::initial(true),
    {
        State::with_focus(true)
    }

    /// Whether the control has focus.
    pub fn is_focused(&self) -> (r: bool)
        ensures
            r == self.is_focused,
    {
        self.is_focused
    }

    /// The cursor of the text.
    pub fn cursor(&self) -> (r: Cursor)
        ensures
            r == self.cursor,
    {
        self.cursor
    }

    /// Gives the control focus.
    pub fn focus(&mut self)
        ensures
            *final(self) == (State { is_focused: true, ..*old(self) }),
    {
        self.is_focused = true;
    }

    /// Takes focus away from the control.
    pub fn unfocus(&mut self)
        ensures
            *final(self) == (State { is_focused: false, ..*old(self) }),
    {
        self.is_focused = false;
    }

    /// Places the caret before the first character.
    pub fn move_cursor_to_front(&mut self)
        ensures
            *final(self) == (State { cursor: Cursor::caret(0), ..*old(self) }),
    {
        self.cursor.move_to(0);
    }

    /// Places the caret after the last character, whatever the text.
    pub fn move_cursor_to_end(&mut self)
        ensures
            *final(self) == (State { cursor: Cursor::caret(usize::MAX), ..*old(self) }),
    {
        self.cursor.move_to(usize::MAX);
    }

    /// Places the caret at `position`, which is clamped to the text when read.
    pub fn move_cursor_to(&mut self, position: usize)
        ensures
            *final(self) == (State { cursor: Cursor::caret(position), ..*old(self) }),
    {
        self.cursor.move_to(position);
    }

    /// Selects all of the text, whatever its length.
    pub fn select_all(&mut self)
        ensures
            *final(self) == (State { cursor: Cursor::ranged(0, usize::MAX), ..*old(self) }),
    {
        self.cursor.select_range(0, usize::MAX);
    }
}

/// A text field with a dropdown of options to pick from.
pub struct SearchablePickList<T> {
    pub state: State<T>,
    pub placeholder: String,
    pub value: Value,
    pub max_width: u32,
    pub padding: Padding,
    pub size: Option<u16>,
    /// Whether Enter produces `Output::Submitted`.
    pub submits: bool,
    pub select_all_first_click: bool,
    pub platform: Platform,
    pub options: Vec<T>,
    pub options_empty_message: Option<String>,
    pub selected: Option<T>,
}

impl<T> SearchablePickList<T> {
    /// Creates a control over `state` showing `value`, with `placeholder` shown
    /// while the text is empty, `selected` as the picked option, and `options`
    /// in the dropdown.
    pub fn new(
        state: State<T>,
        placeholder: &str,
        value: &str,
        selected: Option<T>,
        options: Vec<T>,
    ) -> (r: SearchablePickList<T>)
        ensures
            r.state == state,
            r.placeholder@ == placeholder@,
            r.value@ == value@,
            r.max_width == u32::MAX,
            r.padding == (Padding { top: 0, right: 0, bottom: 0, left: 0 }),
            r.size is None,
            !r.submits,
            !r.select_all_first_click,
            r.platform == Platform::Other,
            r.options@ == options@,
            r.options_empty_message is None,
            r.selected == selected,
    {
        SearchablePickList {
            state,
            placeholder: placeholder.to_owned(),
            value: Value::new(value),
            max_width: u32::MAX,
            padding: Padding::zero(),
            size: None,
            submits: false,
            select_all_first_click: false,
            platform: Platform::Other,
            options,
            options_empty_message: None,
            selected,
        }
    }

    /// Sets the largest width of the control.
    pub fn max_width(self, max_width: u32) -> (r: SearchablePickList<T>)
        ensures
            r == (SearchablePickList { max_width, ..self }),
    {
        SearchablePickList { max_width, ..self }
    }

    /// Sets the padding around the text.
    pub fn padding(self, padding: Padding) -> (r: SearchablePickList<T>)
        ensures
            r == (SearchablePickList { padding, ..self }),
    {
        SearchablePickList { padding, ..self }
    }

    /// Sets the text size.
    pub fn size(self, size: u16) -> (r: SearchablePickList<T>)
        ensures
            r == (SearchablePickList { size: Some(size), ..self }),
    {
        SearchablePickList { size: Some(size), ..self }
    }

    /// Makes Enter produce `Output::Submitted` while the control has focus.
    pub fn on_submit(self) -> (r: SearchablePickList<T>)
        ensures
            r == (SearchablePickList { submits: true, ..self }),
    {
        SearchablePickList { submits: true, ..self }
    }

    /// Sets whether the first click in the text after the control opens
    /// selects all of it.
    pub fn select_all_first_click(self, select: bool) -> (r: SearchablePickList<T>)
        ensures
            r == (SearchablePickList { select_all_first_click: select, ..self }),
    {
        SearchablePickList { select_all_first_click: select, ..self }
    }

    /// Sets the platform whose modifier keys the control follows.
    pub fn platform(self, platform: Platform) -> (r: SearchablePickList<T>)
        ensures
            r == (SearchablePickList { platform, ..self }),
    {
        SearchablePickList { platform, ..self }
    }

    /// Sets the message shown when there is no option.
    pub fn options_empty_message(self, message: String) -> (r: SearchablePickList<T>)
        ensures
            r == (SearchablePickList { options_empty_message: Some(message), ..self }),
    {
        SearchablePickList { options_empty_message: Some(message), ..self }
    }

    /// The state of the control.
    pub fn state(&self) -> (r: &State<T>)
        ensures
            *r == self.state,
    {
        &self.state
    }

    /// The menu to show under the control, as wide as `bounds`: only while the
    /// dropdown is open.
    pub fn overlay(&self, bounds: Rectangle) -> (r: Option<MenuRequest>)
        ensures
            r == if self.state.pick_list.is_open {
                Some(
                    MenuRequest {
                        width: if bounds.width < 0 {
                            0
                        } else if bounds.width > u16::MAX {
                            u16::MAX
                        } else {
                            bounds.width as u16
                        },
                        padding: self.padding,
                        text_size: self.size,
                        hovered_option: self.state.pick_list.hovered_option,
                    },
                )
            } else {
                None
            },
    {
        if self.state.pick_list.is_open {
            let width: u16 = if bounds.width < 0 {
                0
            } else if bounds.width > u16::MAX as i32 {
                u16::MAX
            } else {
                bounds.width as u16
            };
            Some(
                MenuRequest {
                    width,
                    padding: self.padding,
                    text_size: self.size,
                    hovered_option: self.state.pick_list.hovered_option,
                },
            )
        } else {
            None
        }
    }

    /// Hands back the state, to be kept for the next event.
    pub fn into_state(self) -> (r: State<T>)
        ensures
            r == self.state,
    {
        self.state
    }
}

/// The first index from `from` on whose option equals `x`.
pub open spec fn first_index_of<T: PartialEq>(options: Seq<T>, x: T, from: int) -> Option<usize>
    decreases options.len() - from,
{
    if from < 0 || from >= options.len() {
        None
    } else if options[from].eq_spec(&x) {
        Some(from as usize)
    } else {
        first_index_of(options, x, from + 1)
    }
}

/// The index of the first option equal to `selected`; none without a selection.
pub open spec fn position_spec<T: PartialEq>(options: Seq<T>, selected: Option<T>) -> Option<usize> {
    match selected {
        Some(x) => first_index_of(options, x, 0),
        None => None,
    }
}

/// The index of the first option equal to `selected`.
fn position_of<T: PartialEq>(options: &Vec<T>, selected: &Option<T>) -> (r: Option<usize>)
    ensures
        selected is None ==> r is None,
        T::obeys_eq_spec() ==> r == position_spec(options@, *selected),
{
    match selected {
        None => None,
        Some(x) => {
            let mut i: usize = 0;
            while i < options.len()
                invariant
                    *selected == Some(*x),
                    i <= options@.len(),
                    T::obeys_eq_spec() ==> first_index_of(options@, *x, i as int)
                        == first_index_of(options@, *x, 0),
                decreases options@.len() - i,
            {
                if options[i] == *x {
                    return Some(i);
                }
                i = i + 1;
            }
            None
        },
    }
}

/// Whether `p` lies in the zone at the right edge of `bounds` whose press
/// closes an open control: the last `DISCLOSURE_WIDTH` pixels before the
/// right padding, up to the control's right edge.
pub open spec fn in_disclosure_zone(bounds: Rectangle, padding: Padding, p: Point) -> bool {
    let x = bounds.x + bounds.width - padding.left - padding.right - DISCLOSURE_WIDTH;
    &&& x <= p.x <= bounds.x + bounds.width
    &&& bounds.y <= p.y <= bounds.y + bounds.height
}

fn disclosure_zone_contains(bounds: Rectangle, padding: Padding, p: Point) -> (r: bool)
    ensures
        r == in_disclosure_zone(bounds, padding, p),
{
    let x = bounds.x as i64 + bounds.width as i64 - padding.horizontal() as i64 - DISCLOSURE_WIDTH;
    let px = p.x as i64;
    let py = p.y as i64;
    x <= px && px <= bounds.x as i64 + bounds.width as i64 && bounds.y as i64 <= py && py <= bounds.y as i64
        + bounds.height as i64
}

impl<T: PartialEq> SearchablePickList<T> {
    /// The state after a press in the text region of an open control, focus
    /// already given: the press is classified against the last click; a
    /// single click places the caret and starts a drag (or selects all, once,
    /// in select-all-on-first-click mode), a double click selects the word
    /// under it, a triple click selects everything.
    pub open spec fn text_pressed(
        self,
        text_bounds: Rectangle,
        position: Point,
        now_ms: u64,
        widths: Seq<u32>,
    ) -> State<T> {
        let s = self.state;
        let v = self.value@;
        let target = position.x - text_bounds.x;
        let click = Click::new_spec(position, now_ms, s.last_click);
        let hit = cursor_position_spec(
            widths,
            text_bounds.width as int,
            v.len(),
            s.is_focused,
            s.cursor,
            target,
        );
        let after = match click.kind {
            ClickKind::Single => if target > 0 {
                if self.select_all_first_click && s.first_click {
                    State { cursor: Cursor::ranged(0, v.len() as usize), first_click: false, ..s }
                } else {
                    State { cursor: Cursor::caret(hit as usize), is_dragging: true, ..s }
                }
            } else {
                State { cursor: Cursor::caret(0), is_dragging: true, ..s }
            },
            ClickKind::Double => State {
                cursor: Cursor::ranged(
                    previous_word_start(v, hit) as usize,
                    next_word_end(v, hit) as usize,
                ),
                is_dragging: false,
                ..s
            },
            ClickKind::Triple => State {
                cursor: Cursor::ranged(0, v.len() as usize),
                is_dragging: false,
                ..s
            },
        };
        State { last_click: Some(click), ..after }
    }

    /// The state and status after a press at `position`, before a pick of the
    /// menu is drained; `hovered` is what an opening press hovers.
    pub open spec fn pressed(
        self,
        layout: Layout,
        position: Point,
        now_ms: u64,
        widths: Seq<u32>,
        hovered: Option<usize>,
    ) -> (State<T>, Status) {
        let s = self.state;
        if !layout.bounds.contains_spec(position) {
            (
                State {
                    pick_list: PickListState { is_open: false, ..s.pick_list },
                    is_focused: false,
                    ..s
                },
                Status::Ignored,
            )
        } else if !s.pick_list.is_open {
            (
                State {
                    pick_list: PickListState { is_open: true, hovered_option: hovered, ..s.pick_list },
                    is_focused: true,
                    first_click: self.select_all_first_click,
                    ..s
                },
                Status::Captured,
            )
        } else if in_disclosure_zone(layout.bounds, self.padding, position) {
            (
                State {
                    pick_list: PickListState { is_open: false, ..s.pick_list },
                    is_focused: false,
                    ..s
                },
                Status::Captured,
            )
        } else {
            (
                SearchablePickList { state: State { is_focused: true, ..s }, ..self }.text_pressed(
                    layout.text_bounds,
                    position,
                    now_ms,
                    widths,
                ),
                Status::Captured,
            )
        }
    }

    /// What a press leaves (see `on_press`).
    pub open spec fn press_post(
        self,
        after: Self,
        r: Reaction<T>,
        layout: Layout,
        position: Point,
        now_ms: u64,
        widths: Seq<u32>,
    ) -> bool {
        let hovered = after.state.pick_list.hovered_option;
        let (s, status) = self.pressed(layout, position, now_ms, widths, hovered);
        let opens = layout.bounds.contains_spec(position) && !self.state.pick_list.is_open;
        &&& after == (SearchablePickList { state: after.state, ..self })
        &&& match self.state.pick_list.last_selection {
            Some(x) => {
                &&& after.state == (State {
                    pick_list: PickListState { is_open: false, last_selection: None, ..s.pick_list },
                    is_focused: false,
                    ..s
                })
                &&& r == (Reaction {
                    status: Status::Captured,
                    output: Some(Output::Selected(x)),
                    copied: None,
                })
            },
            None => {
                &&& after.state == s
                &&& r == (Reaction::<T> { status, output: None, copied: None })
            },
        }
        &&& opens && T::obeys_eq_spec() ==> hovered == position_spec(self.options@, self.selected)
        &&& opens && self.selected is None ==> hovered is None
    }

    fn press_text(&mut self, text_bounds: Rectangle, position: Point, now_ms: u64, widths: &Vec<u32>)
        requires
            widths@.len() == old(self).value@.len() + 1,
            monotone(widths@),
        ensures
            *final(self) == (SearchablePickList {
                state: old(self).text_pressed(text_bounds, position, now_ms, widths@),
                ..*old(self)
            }),
    {
        let target = position.x as i64 - text_bounds.x as i64;
        let click = Click::new(position, now_ms, self.state.last_click);
        match click.kind() {
            ClickKind::Single => {
                if target > 0 {
                    if self.select_all_first_click && self.state.first_click {
                        self.state.cursor.select_all(&self.value);
                        self.state.first_click = false;
                    } else {
                        let position = find_cursor_position(
                            widths,
                            text_bounds,
                            &self.value,
                            self.state.is_focused,
                            self.state.cursor,
                            target,
                        );
                        self.state.cursor.move_to(position);
                        self.state.is_dragging = true;
                    }
                } else {
                    self.state.cursor.move_to(0);
                    self.state.is_dragging = true;
                }
            },
            ClickKind::Double => {
                let position = find_cursor_position(
                    widths,
                    text_bounds,
                    &self.value,
                    self.state.is_focused,
                    self.state.cursor,
                    target,
                );
                let start = self.value.previous_start_of_word(position);
                let end = self.value.next_end_of_word(position);
                self.state.cursor.select_range(start, end);
                self.state.is_dragging = false;
            },
            ClickKind::Triple => {
                self.state.cursor.select_all(&self.value);
                self.state.is_dragging = false;
            },
        }
        self.state.last_click = Some(click);
    }

    /// Handles a press of the primary button or a finger at `position`.
    ///
    /// A press outside the control closes it and lets the event go on; a press
    /// on a closed control opens it, hovering the selected option, and focuses
    /// it; a press in the disclosure zone of an open control closes it; any
    /// other press lands in the text (see `text_pressed`). Whatever happened, an
    /// option that the menu picked meanwhile wins: it is reported, and the
    /// control closes and loses focus.
    pub fn on_press(
        &mut self,
        layout: Layout,
        position: Point,
        now_ms: u64,
        widths: &Vec<u32>,
    ) -> (r: Reaction<T>)
        requires
            widths@.len() == old(self).value@.len() + 1,
            monotone(widths@),
        ensures
            old(self).press_post(*final(self), r, layout, position, now_ms, widths@),
    {
        let status = if layout.bounds.contains(position) {
            if !self.state.pick_list.is_open {
                self.state.pick_list.is_open = true;
                self.state.pick_list.hovered_option = position_of(&self.options, &self.selected);
                self.state.is_focused = true;
                self.state.first_click = self.select_all_first_click;
                Status::Captured
            } else if disclosure_zone_contains(layout.bounds, self.padding, position) {
                self.state.pick_list.is_open = false;
                self.state.is_focused = false;
                Status::Captured
            } else {
                self.state.is_focused = true;
                self.press_text(layout.text_bounds, position, now_ms, widths);
                Status::Captured
            }
        } else {
            self.state.pick_list.is_open = false;
            self.state.is_focused = false;
            Status::Ignored
        };
        let mut picked: Option<T> = None;
        core::mem::swap(&mut self.state.pick_list.last_selection, &mut picked);
        match picked {
            Some(selection) => {
                self.state.pick_list.is_open = false;
                self.state.is_focused = false;
                Reaction { status: Status::Captured, output: Some(Output::Selected(selection)), copied: None }
            },
            None => Reaction { status, output: None, copied: None },
        }
    }
}

impl<T> SearchablePickList<T> {
    /// Whether `r` reports that the text now reads `text`, and nothing else.
    pub open spec fn reports_change(r: Reaction<T>, text: Seq<char>) -> bool {
        &&& r.status == Status::Captured
        &&& r.output matches Some(Output::Changed(t)) && t@ == text
        &&& r.copied is None
    }

    /// What moving the pointer to `position` leaves: during a drag, the
    /// selection runs from its anchor to the index under the pointer, if the
    /// pointer lies right of the text's left edge.
    pub open spec fn move_post(
        self,
        after: Self,
        r: Reaction<T>,
        layout: Layout,
        position: Point,
        widths: Seq<u32>,
    ) -> bool {
        let s = self.state;
        let len = self.value@.len();
        let target = position.x - layout.text_bounds.x;
        if s.is_dragging {
            &&& r == (Reaction::<T> { status: Status::Captured, output: None, copied: None })
            &&& after == if target > 0 {
                SearchablePickList {
                    state: State {
                        cursor: Cursor::ranged(
                            s.cursor.start_spec(len),
                            cursor_position_spec(
                                widths,
                                layout.text_bounds.width as int,
                                len,
                                s.is_focused,
                                s.cursor,
                                target,
                            ) as usize,
                        ),
                        ..s
                    },
                    ..self
                }
            } else {
                self
            }
        } else {
            &&& r == (Reaction::<T> { status: Status::Ignored, output: None, copied: None })
            &&& after == self
        }
    }

    /// Handles the pointer, or a finger, moving to `position`.
    pub fn on_move(&mut self, layout: Layout, position: Point, widths: &Vec<u32>) -> (r: Reaction<T>)
        requires
            widths@.len() == old(self).value@.len() + 1,
            monotone(widths@),
        ensures
            old(self).move_post(*final(self), r, layout, position, widths@),
    {
        if self.state.is_dragging {
            let target = position.x as i64 - layout.text_bounds.x as i64;
            if target > 0 {
                let index = find_cursor_position(
                    widths,
                    layout.text_bounds,
                    &self.value,
                    self.state.is_focused,
                    self.state.cursor,
                    target,
                );
                let anchor = self.state.cursor.start(&self.value);
                self.state.cursor.select_range(anchor, index);
            }
            Reaction { status: Status::Captured, output: None, copied: None }
        } else {
            Reaction { status: Status::Ignored, output: None, copied: None }
        }
    }

    /// Handles the release of the primary button, or a finger lifted or lost:
    /// any drag ends.
    pub fn on_release(&mut self) -> (r: Reaction<T>)
        ensures
            *final(self) == (SearchablePickList {
                state: State { is_dragging: false, ..old(self).state },
                ..*old(self)
            }),
            r == (Reaction::<T> { status: Status::Ignored, output: None, copied: None }),
    {
        self.state.is_dragging = false;
        Reaction { status: Status::Ignored, output: None, copied: None }
    }

    /// Whether typing `c` edits the text: the control has focus, no paste is
    /// in progress, the command modifier is up, and `c` is no control character.
    pub open spec fn takes_character(self, c: char) -> bool {
        &&& self.state.is_focused
        &&& self.state.is_pasting is None
        &&& !self.state.keyboard_modifiers.command_spec(self.platform)
        &&& !control_of(c)
        &&& self.value@.len() < usize::MAX
    }

    /// What typing `c` leaves: where the control takes it, `c` replaces the
    /// selection or goes in at the caret, and the new text is reported.
    pub open spec fn character_post(self, after: Self, r: Reaction<T>, c: char) -> bool {
        let (text, cursor) = inserted(self.value@, self.state.cursor, c);
        if self.takes_character(c) {
            &&& after == (SearchablePickList {
                state: State { cursor, ..self.state },
                value: after.value,
                ..self
            })
            &&& after.value@ == text
            &&& Self::reports_change(r, text)
        } else {
            &&& after == self
            &&& r == (Reaction::<T> { status: Status::Ignored, output: None, copied: None })
        }
    }

    /// Handles a typed character.
    pub fn on_character(&mut self, c: char) -> (r: Reaction<T>)
        ensures
            old(self).character_post(*final(self), r, c),
    {
        if self.state.is_focused && self.state.is_pasting.is_none()
            && !self.state.keyboard_modifiers.command(self.platform) && !is_control(c)
            && self.value.len() < usize::MAX {
            editor::insert(&mut self.value, &mut self.state.cursor, c);
            let text = editor::contents(&self.value);
            Reaction { status: Status::Captured, output: Some(Output::Changed(text)), copied: None }
        } else {
            Reaction { status: Status::Ignored, output: None, copied: None }
        }
    }
}

impl<T> SearchablePickList<T> {
    /// The text a paste inserts: the paste in progress, or else the clipboard's
    /// text without its control characters (nothing if it could not be read).
    pub open spec fn paste_content(self, clipboard: Option<String>) -> Seq<char> {
        match self.state.is_pasting {
            Some(latch) => latch@,
            None => match clipboard {
                Some(t) => strip_controls(t@),
                None => Seq::empty(),
            },
        }
    }

    /// Whether the command modifier is held.
    pub open spec fn command_held(self) -> bool {
        self.state.keyboard_modifiers.command_spec(self.platform)
    }

    /// Whether a paste of `content` fits in memory.
    pub open spec fn paste_fits(self, content: Seq<char>) -> bool {
        self.value@.len() + content.len() <= usize::MAX
    }

    /// The text and cursor after pressing `code` with focus.
    ///
    /// With the word-jump modifier, Backspace and Delete first stretch a caret
    /// over the word before or after it. Left and Right move by a character, or
    /// by a word with the word-jump modifier, and extend the selection with
    /// Shift. Home and End go to either end, or select up to it with Shift.
    /// With the command modifier, X cuts the selection, V pastes and A selects
    /// everything.
    pub open spec fn key_edit(self, code: KeyCode, clipboard: Option<String>) -> (Seq<char>, Cursor) {
        let v = self.value@;
        let len = v.len();
        let c = self.state.cursor;
        let m = self.state.keyboard_modifiers;
        let jump = jump_spec(m, self.platform);
        let command = self.command_held();
        let no_selection = c.selection_spec(len) is None;
        match code {
            KeyCode::Backspace => backspaced(
                v,
                if jump && no_selection {
                    c.selected_left_by_words(v)
                } else {
                    c
                },
            ),
            KeyCode::Delete => deleted(
                v,
                if jump && no_selection {
                    c.selected_right_by_words(v)
                } else {
                    c
                },
            ),
            KeyCode::Left => (
                v,
                if jump {
                    if m.shift {
                        c.selected_left_by_words(v)
                    } else {
                        c.moved_left_by_words(v)
                    }
                } else if m.shift {
                    c.selected_left(len)
                } else {
                    c.moved_left(len)
                },
            ),
            KeyCode::Right => (
                v,
                if jump {
                    if m.shift {
                        c.selected_right_by_words(v)
                    } else {
                        c.moved_right_by_words(v)
                    }
                } else if m.shift {
                    c.selected_right(len)
                } else {
                    c.moved_right(len)
                },
            ),
            KeyCode::Home => (
                v,
                if m.shift {
                    Cursor::ranged(c.start_spec(len), 0)
                } else {
                    Cursor::caret(0)
                },
            ),
            KeyCode::End => (
                v,
                if m.shift {
                    Cursor::ranged(c.start_spec(len), len as usize)
                } else {
                    Cursor::caret(len as usize)
                },
            ),
            KeyCode::X => if command && !no_selection {
                deleted(v, c)
            } else {
                (v, c)
            },
            KeyCode::V => if command && self.paste_fits(self.paste_content(clipboard)) {
                pasted(v, c, self.paste_content(clipboard))
            } else {
                (v, c)
            },
            KeyCode::A => if command {
                (v, Cursor::ranged(0, len as usize))
            } else {
                (v, c)
            },
            _ => (v, c),
        }
    }

    /// Whether pressing `code` with focus changes the text, and so reports it.
    pub open spec fn key_reports_change(self, code: KeyCode, clipboard: Option<String>) -> bool {
        match code {
            KeyCode::Backspace | KeyCode::Delete => true,
            KeyCode::X => self.command_held() && self.state.cursor.selection_spec(
                self.value@.len(),
            ) is Some,
            KeyCode::V => self.command_held() && self.paste_fits(self.paste_content(clipboard)),
            _ => false,
        }
    }

    /// What pressing `code` leaves. Without focus nothing happens. With focus
    /// the event is consumed; the text and cursor change as `key_edit` says;
    /// Escape drops focus, drag, paste and modifiers; a paste keeps its text
    /// for the key's repeats, and V without the command modifier drops it;
    /// Enter submits where the control submits; copy and cut hand the selected
    /// text to the clipboard.
    pub open spec fn key_post(
        self,
        after: Self,
        r: Reaction<T>,
        code: KeyCode,
        clipboard: Option<String>,
    ) -> bool {
        let s = self.state;
        let v = self.value@;
        let (text, cursor) = self.key_edit(code, clipboard);
        let escape = code == KeyCode::Escape;
        let command = self.command_held();
        if !s.is_focused {
            &&& after == self
            &&& r == (Reaction::<T> { status: Status::Ignored, output: None, copied: None })
        } else {
            &&& after == (SearchablePickList {
                state: State {
                    cursor,
                    is_focused: !escape,
                    is_dragging: if escape {
                        false
                    } else {
                        s.is_dragging
                    },
                    keyboard_modifiers: if escape {
                        Modifiers::none()
                    } else {
                        s.keyboard_modifiers
                    },
                    is_pasting: after.state.is_pasting,
                    ..s
                },
                value: after.value,
                ..self
            })
            &&& after.value@ == text
            &&& match code {
                KeyCode::Escape => after.state.is_pasting is None,
                KeyCode::V => if command {
                    after.state.is_pasting matches Some(latch) && latch@ == self.paste_content(
                        clipboard,
                    )
                } else {
                    after.state.is_pasting is None
                },
                _ => after.state.is_pasting == s.is_pasting,
            }
            &&& r.status == Status::Captured
            &&& if self.key_reports_change(code, clipboard) {
                r.output matches Some(Output::Changed(t)) && t@ == text
            } else if code == KeyCode::Enter && self.submits {
                r.output matches Some(Output::Submitted)
            } else {
                r.output is None
            }
            &&& match s.cursor.selection_spec(v.len()) {
                Some((lo, hi)) => if (code == KeyCode::C || code == KeyCode::X) && command {
                    r.copied matches Some(t) && t@ == v.subrange(lo as int, hi as int)
                } else {
                    r.copied is None
                },
                None => r.copied is None,
            }
        }
    }

    /// Hands the selected text out for the clipboard, if there is a selection.
    fn copy_selection(&self) -> (r: Option<String>)
        ensures
            match self.state.cursor.selection_spec(self.value@.len()) {
                Some((lo, hi)) => r matches Some(t) && t@ == self.value@.subrange(lo as int, hi as int),
                None => r is None,
            },
    {
        match self.state.cursor.selection(&self.value) {
            Some((start, end)) => Some(self.value.select(start, end).to_string()),
            None => None,
        }
    }

    fn key_delete(&mut self, key_code: KeyCode, clipboard: Option<String>) -> (r: Reaction<T>)
        requires
            old(self).state.is_focused,
            key_code == KeyCode::Backspace || key_code == KeyCode::Delete,
        ensures
            old(self).key_post(*final(self), r, key_code, clipboard),
    {
        let jump = is_jump_modifier_pressed(self.state.keyboard_modifiers, self.platform);
        let no_selection = self.state.cursor.selection(&self.value).is_none();
        if key_code == KeyCode::Backspace {
            if jump && no_selection {
                self.state.cursor.select_left_by_words(&self.value);
            }
            editor::backspace(&mut self.value, &mut self.state.cursor);
        } else {
            if jump && no_selection {
                self.state.cursor.select_right_by_words(&self.value);
            }
            editor::delete(&mut self.value, &mut self.state.cursor);
        }
        Reaction {
            status: Status::Captured,
            output: Some(Output::Changed(editor::contents(&self.value))),
            copied: None,
        }
    }

    fn key_arrow(&mut self, key_code: KeyCode, clipboard: Option<String>) -> (r: Reaction<T>)
        requires
            old(self).state.is_focused,
            key_code == KeyCode::Left || key_code == KeyCode::Right,
        ensures
            old(self).key_post(*final(self), r, key_code, clipboard),
    {
        let modifiers = self.state.keyboard_modifiers;
        let jump = is_jump_modifier_pressed(modifiers, self.platform);
        if key_code == KeyCode::Left {
            if jump {
                if modifiers.shift() {
                    self.state.cursor.select_left_by_words(&self.value);
                } else {
                    self.state.cursor.move_left_by_words(&self.value);
                }
            } else if modifiers.shift() {
                self.state.cursor.select_left(&self.value);
            } else {
                self.state.cursor.move_left(&self.value);
            }
        } else {
            if jump {
                if modifiers.shift() {
                    self.state.cursor.select_right_by_words(&self.value);
                } else {
                    self.state.cursor.move_right_by_words(&self.value);
                }
            } else if modifiers.shift() {
                self.state.cursor.select_right(&self.value);
            } else {
                self.state.cursor.move_right(&self.value);
            }
        }
        Reaction { status: Status::Captured, output: None, copied: None }
    }

    fn key_jump(&mut self, key_code: KeyCode, clipboard: Option<String>) -> (r: Reaction<T>)
        requires
            old(self).state.is_focused,
            key_code == KeyCode::Home || key_code == KeyCode::End || key_code == KeyCode::A,
        ensures
            old(self).key_post(*final(self), r, key_code, clipboard),
    {
        let modifiers = self.state.keyboard_modifiers;
        let len = self.value.len();
        let anchor = self.state.cursor.start(&self.value);
        if key_code == KeyCode::Home {
            if modifiers.shift() {
                self.state.cursor.select_range(anchor, 0);
            } else {
                self.state.cursor.move_to(0);
            }
        } else if key_code == KeyCode::End {
            if modifiers.shift() {
                self.state.cursor.select_range(anchor, len);
            } else {
                self.state.cursor.move_to(len);
            }
        } else if modifiers.command(self.platform) {
            self.state.cursor.select_all(&self.value);
        }
        Reaction { status: Status::Captured, output: None, copied: None }
    }

    fn key_copy(&mut self, key_code: KeyCode, clipboard: Option<String>) -> (r: Reaction<T>)
        requires
            old(self).state.is_focused,
            key_code == KeyCode::C || key_code == KeyCode::X,
        ensures
            old(self).key_post(*final(self), r, key_code, clipboard),
    {
        if !self.state.keyboard_modifiers.command(self.platform) {
            return Reaction { status: Status::Captured, output: None, copied: None };
        }
        let copied = self.copy_selection();
        let mut output: Option<Output<T>> = None;
        if key_code == KeyCode::X && self.state.cursor.selection(&self.value).is_some() {
            editor::delete(&mut self.value, &mut self.state.cursor);
            output = Some(Output::Changed(editor::contents(&self.value)));
        }
        Reaction { status: Status::Captured, output, copied }
    }

    fn key_paste(&mut self, clipboard: Option<String>) -> (r: Reaction<T>)
        requires
            old(self).state.is_focused,
        ensures
            old(self).key_post(*final(self), r, KeyCode::V, clipboard),
    {
        if !self.state.keyboard_modifiers.command(self.platform) {
            self.state.is_pasting = None;
            return Reaction { status: Status::Captured, output: None, copied: None };
        }
        let mut latch: Option<Value> = None;
        core::mem::swap(&mut self.state.is_pasting, &mut latch);
        let content = match latch {
            Some(content) => content,
            None => match &clipboard {
                Some(text) => Value::without_controls(text.as_str()),
                None => Value::from_chars(Vec::new()),
            },
        };
        let mut output: Option<Output<T>> = None;
        if content.len() <= usize::MAX - self.value.len() {
            editor::paste(&mut self.value, &mut self.state.cursor, content.clone());
            output = Some(Output::Changed(editor::contents(&self.value)));
        }
        self.state.is_pasting = Some(content);
        Reaction { status: Status::Captured, output, copied: None }
    }

    /// Handles a key press; `clipboard` is the clipboard's text, read where
    /// `wants_clipboard` asked for it.
    pub fn on_key_pressed(&mut self, key_code: KeyCode, clipboard: Option<String>) -> (r: Reaction<T>)
        ensures
            old(self).key_post(*final(self), r, key_code, clipboard),
    {
        if !self.state.is_focused {
            return Reaction { status: Status::Ignored, output: None, copied: None };
        }
        match key_code {
            KeyCode::Enter => {
                let output = if self.submits {
                    Some(Output::Submitted)
                } else {
                    None
                };
                Reaction { status: Status::Captured, output, copied: None }
            },
            KeyCode::Backspace | KeyCode::Delete => self.key_delete(key_code, clipboard),
            KeyCode::Left | KeyCode::Right => self.key_arrow(key_code, clipboard),
            KeyCode::Home | KeyCode::End | KeyCode::A => self.key_jump(key_code, clipboard),
            KeyCode::C | KeyCode::X => self.key_copy(key_code, clipboard),
            KeyCode::V => self.key_paste(clipboard),
            KeyCode::Escape => {
                self.state.is_focused = false;
                self.state.is_dragging = false;
                self.state.is_pasting = None;
                self.state.keyboard_modifiers = Modifiers::default();
                Reaction { status: Status::Captured, output: None, copied: None }
            },
            KeyCode::Other => Reaction { status: Status::Captured, output: None, copied: None },
        }
    }
}

impl<T> SearchablePickList<T> {
    /// What releasing `code` leaves: with focus the event is consumed, and
    /// releasing V ends the paste in progress.
    pub open spec fn key_release_post(self, after: Self, r: Reaction<T>, code: KeyCode) -> bool {
        if self.state.is_focused {
            &&& after == if code == KeyCode::V {
                SearchablePickList { state: State { is_pasting: None, ..self.state }, ..self }
            } else {
                self
            }
            &&& r == (Reaction::<T> { status: Status::Captured, output: None, copied: None })
        } else {
            &&& after == self
            &&& r == (Reaction::<T> { status: Status::Ignored, output: None, copied: None })
        }
    }

    /// Handles a key release.
    pub fn on_key_released(&mut self, key_code: KeyCode) -> (r: Reaction<T>)
        ensures
            old(self).key_release_post(*final(self), r, key_code),
    {
        if !self.state.is_focused {
            return Reaction { status: Status::Ignored, output: None, copied: None };
        }
        if key_code == KeyCode::V {
            self.state.is_pasting = None;
        }
        Reaction { status: Status::Captured, output: None, copied: None }
    }

    /// What a change of the held modifiers leaves: with focus they are
    /// recorded and the paste in progress ends; the event goes on either way.
    pub open spec fn modifiers_post(self, after: Self, r: Reaction<T>, modifiers: Modifiers) -> bool {
        &&& after == if self.state.is_focused {
            SearchablePickList {
                state: State { keyboard_modifiers: modifiers, is_pasting: None, ..self.state },
                ..self
            }
        } else {
            self
        }
        &&& r == (Reaction::<T> { status: Status::Ignored, output: None, copied: None })
    }

    /// Handles a change of the held modifier keys.
    pub fn on_modifiers_changed(&mut self, modifiers: Modifiers) -> (r: Reaction<T>)
        ensures
            old(self).modifiers_post(*final(self), r, modifiers),
    {
        if self.state.is_focused {
            self.state.keyboard_modifiers = modifiers;
            self.state.is_pasting = None;
        }
        Reaction { status: Status::Ignored, output: None, copied: None }
    }

    /// Whether handling `event` reads the clipboard: a paste with focus and no
    /// paste in progress. The clipboard need not be read for other events.
    pub open spec fn wants_clipboard_spec(self, event: Event) -> bool {
        &&& event == Event::KeyPressed(KeyCode::V)
        &&& self.state.is_focused
        &&& self.command_held()
        &&& self.state.is_pasting is None
    }

    /// Whether handling `event` reads the clipboard's text.
    pub fn wants_clipboard(&self, event: &Event) -> (r: bool)
        ensures
            r == self.wants_clipboard_spec(*event),
    {
        match event {
            Event::KeyPressed(KeyCode::V) => self.state.is_focused
                && self.state.keyboard_modifiers.command(self.platform)
                && self.state.is_pasting.is_none(),
            _ => false,
        }
    }
}

impl<T: PartialEq> SearchablePickList<T> {
    /// What handling `event` leaves.
    pub open spec fn event_post(
        self,
        after: Self,
        r: Reaction<T>,
        event: Event,
        layout: Layout,
        cursor_position: Point,
        now_ms: u64,
        widths: Seq<u32>,
        clipboard: Option<String>,
    ) -> bool {
        match event {
            Event::Pressed => self.press_post(after, r, layout, cursor_position, now_ms, widths),
            Event::Released => {
                &&& after == (SearchablePickList {
                    state: State { is_dragging: false, ..self.state },
                    ..self
                })
                &&& r == (Reaction::<T> { status: Status::Ignored, output: None, copied: None })
            },
            Event::Moved(position) => self.move_post(after, r, layout, position, widths),
            Event::CharacterReceived(c) => self.character_post(after, r, c),
            Event::KeyPressed(code) => self.key_post(after, r, code, clipboard),
            Event::KeyReleased(code) => self.key_release_post(after, r, code),
            Event::ModifiersChanged(modifiers) => self.modifiers_post(after, r, modifiers),
            Event::Other => {
                &&& after == self
                &&& r == (Reaction::<T> { status: Status::Ignored, output: None, copied: None })
            },
        }
    }

    /// Handles one input event.
    ///
    /// `layout` places the control, `cursor_position` is where the pointer is,
    /// `now_ms` the time of the event in milliseconds, `widths` the measured
    /// prefix widths of the current text, and `clipboard` the clipboard's text
    /// where `wants_clipboard` asked for it.
    pub fn on_event(
        &mut self,
        event: Event,
        layout: Layout,
        cursor_position: Point,
        now_ms: u64,
        widths: &Vec<u32>,
        clipboard: Option<String>,
    ) -> (r: Reaction<T>)
        requires
            widths@.len() == old(self).value@.len() + 1,
            monotone(widths@),
        ensures
            old(self).event_post(
                *final(self),
                r,
                event,
                layout,
                cursor_position,
                now_ms,
                widths@,
                clipboard,
            ),
    {
        match event {
            Event::Pressed => self.on_press(layout, cursor_position, now_ms, widths),
            Event::Released => self.on_release(),
            Event::Moved(position) => self.on_move(layout, position, widths),
            Event::CharacterReceived(c) => self.on_character(c),
            Event::KeyPressed(code) => self.on_key_pressed(code, clipboard),
            Event::KeyReleased(code) => self.on_key_released(code),
            Event::ModifiersChanged(modifiers) => self.on_modifiers_changed(modifiers),
            Event::Other => Reaction { status: Status::Ignored, output: None, copied: None },
        }
    }
}

/// A triple click in the text of an open control selects all of a non-empty
/// text, wherever the click lands, unless the menu picked an option meanwhile.
pub proof fn lemma_triple_click_selects_all<T: PartialEq>(
    before: SearchablePickList<T>,
    after: SearchablePickList<T>,
    r: Reaction<T>,
    layout: Layout,
    position: Point,
    now_ms: u64,
    widths: Seq<u32>,
)
    requires
        before.press_post(after, r, layout, position, now_ms, widths),
        0 < before.value@.len() <= usize::MAX,
        before.state.pick_list.is_open,
        before.state.pick_list.last_selection is None,
        layout.bounds.contains_spec(position),
        !in_disclosure_zone(layout.bounds, before.padding, position),
        Click::new_spec(position, now_ms, before.state.last_click).kind == ClickKind::Triple,
    ensures
        after.state.cursor.selection_spec(after.value@.len()) == Some(
            (0usize, before.value@.len() as usize),
        ),
{
}

} // verus!
