use embedded_gui::data::{BoundData, NoData, WidgetData};
use embedded_gui::geometry::{BoundingBox, MeasureConstraint, MeasureSpec, MeasuredSize, Position};
use embedded_gui::input::{InputContext, InputEvent, Key, KeyEvent, Modifier, PointerEvent};
use embedded_gui::state::selection::Selected;
use embedded_gui::state::WidgetState;
use embedded_gui::widgets::text_box::{
    Inactive, TextBox, TextBoxFields, TextBoxProperties, TextBuffer,
};
use embedded_gui::widgets::label::CharSeq;
use embedded_gui::widgets::utils::callback::{NoCallback, TextCallback};
use embedded_gui::widgets::utils::WidgetDataHolder;
use embedded_gui::widgets::Widget;

#[test]
fn buffer_refuses_text_that_does_not_fit() {
    let mut b = TextBuffer::<8>::new();
    assert_eq!(b.capacity(), 8);
    assert_eq!(b.push_str("hello"), Ok(()));
    assert_eq!(b.push_str("world"), Err(()));
    assert_eq!(b.as_str(), "hello");
    assert_eq!(b.push('!'), Ok(()));
    assert_eq!(b.len(), 6);
    assert!(b.equals("hello!"));
    assert_eq!(b.pop(), Some('!'));
    assert_eq!(b.as_str(), "hello");
}

#[test]
fn buffer_counts_bytes_not_characters() {
    let mut b = TextBuffer::<4>::new();
    assert_eq!(b.push('é'), Ok(()));
    assert_eq!(b.len(), 2);
    assert_eq!(b.push_str("éé"), Err(()));
    assert_eq!(b.push('€'), Err(()));
    assert_eq!(b.push_str("ab"), Ok(()));
    assert_eq!(b.len(), 4);
    assert_eq!(b.pop(), Some('b'));
    assert_eq!(b.pop(), Some('a'));
    assert_eq!(b.pop(), Some('é'));
    assert_eq!(b.pop(), None);
    assert_eq!(b.len(), 0);
}

#[test]
fn buffer_from_str_and_clear() {
    let mut b = TextBuffer::<10>::from_str("abc");
    assert_eq!(b.as_str(), "abc");
    b.clear();
    assert_eq!(b.as_str(), "");
    assert!(b.equals(""));
}

/// Types characters and deletes them with backspace; every character is 6x8 pixels.
struct Editor {
    cursor_down_at: Option<Position>,
}

impl TextBoxProperties for Editor {
    fn spec_handles_keypress(
        &self,
        _key: Key,
        _modifier: Modifier,
        _capacity: usize,
        _text: CharSeq,
        _after: Self,
        _text_after: CharSeq,
        _r: bool,
    ) -> bool {
        unreachable!()
    }

    fn spec_cursor_down(&self, _coordinates: Position, _after: Self) -> bool {
        unreachable!()
    }

    fn spec_measure_text(&self, _text: CharSeq, _spec: MeasureSpec) -> MeasuredSize {
        unreachable!()
    }

    fn measure_text(&self, text: &str, _spec: MeasureSpec) -> MeasuredSize {
        MeasuredSize { width: 6 * text.chars().count() as u32, height: 8 }
    }

    fn handle_keypress<const N: usize>(
        &mut self,
        key: Key,
        _modifier: Modifier,
        text: &mut TextBuffer<N>,
    ) -> bool {
        match key {
            Key::Character(c) => text.push(c).is_ok(),
            Key::Backspace => text.pop().is_some(),
            _ => false,
        }
    }

    fn handle_cursor_down(&mut self, coordinates: Position) {
        self.cursor_down_at = Some(coordinates);
    }
}

struct CopyText;

impl TextCallback<String> for CopyText {
    fn spec_text_call(&self, _before: String, _text: CharSeq, _after: String) -> bool {
        unreachable!()
    }

    fn call(&self, data: &mut String, text: &str) {
        *data = String::from(text);
    }
}

fn text_box() -> TextBox<TextBuffer<4>, Editor, NoData, 4> {
    TextBox {
        fields: TextBoxFields {
            text: TextBuffer::new(),
            label_properties: Editor { cursor_down_at: None },
            bounds: BoundingBox::default(),
            parent_index: 0,
            state: WidgetState::default(),
            on_text_changed: NoCallback,
            on_parent_state_changed: NoCallback,
            data: core::marker::PhantomData,
        },
        data_holder: WidgetDataHolder::new(NoData),
    }
}

fn key(k: Key) -> InputEvent {
    InputEvent::KeyEvent(KeyEvent::KeyDown(k, Modifier::NoModifier, 0))
}

const CTXT: InputContext = InputContext { target: 0 };

#[test]
fn typing_into_a_selected_text_box_reports_the_text() {
    let mut tb = text_box().bind(BoundData::new(String::new())).on_text_changed(CopyText);
    tb.measure(MeasureSpec {
        width: MeasureConstraint::Exactly(40),
        height: MeasureConstraint::AtMost(10),
    });
    tb.arrange(Position { x: 0, y: 0 });
    assert_eq!(tb.bounding_box().size, MeasuredSize { width: 40, height: 8 });

    // not selected yet: keys are not wanted
    assert_eq!(tb.test_input(key(Key::Character('a'))), None);
    assert_eq!(tb.test_input(InputEvent::PointerEvent(Position { x: 2, y: 2 }, PointerEvent::Down)), Some(0));
    assert!(tb.handle_input(CTXT, InputEvent::PointerEvent(Position { x: 2, y: 2 }, PointerEvent::Down)));
    assert!(tb.fields.state.has_state(Selected));
    assert_eq!(tb.fields.label_properties.cursor_down_at, Some(Position { x: 2, y: 2 }));

    assert_eq!(tb.test_input(key(Key::Character('a'))), Some(0));
    assert!(tb.handle_input(CTXT, key(Key::Character('a'))));
    assert!(tb.handle_input(CTXT, key(Key::Character('b'))));
    assert_eq!(tb.data_holder.data.data().as_str(), "ab");
    assert!(tb.handle_input(CTXT, key(Key::Backspace)));
    assert_eq!(tb.data_holder.data.data().as_str(), "a");
    assert_eq!(tb.fields.text.as_str(), "a");

    // a press outside deselects the text box
    assert_eq!(tb.test_input(InputEvent::PointerEvent(Position { x: 50, y: 2 }, PointerEvent::Down)), None);
    assert!(!tb.fields.state.has_state(Selected));
}

#[test]
fn a_full_text_box_takes_the_key_but_keeps_its_text() {
    let mut tb = text_box().bind(BoundData::new(String::from("x"))).on_text_changed(CopyText);
    tb.set_text("abcd");
    assert_eq!(tb.data_holder.data.data().as_str(), "abcd");
    tb.handle_input(CTXT, InputEvent::Cancel);
    tb.handle_input(CTXT, InputEvent::PointerEvent(Position { x: 0, y: 0 }, PointerEvent::Down));
    assert!(tb.handle_input(CTXT, key(Key::Character('e'))));
    assert_eq!(tb.fields.text.as_str(), "abcd");
}

#[test]
fn set_text_reports_only_changes() {
    let mut tb = text_box().bind(BoundData::new(String::from("unset"))).on_text_changed(CopyText);
    tb.set_text("");
    assert_eq!(tb.data_holder.data.data().as_str(), "unset");
    tb.set_text("hi");
    assert_eq!(tb.data_holder.data.data().as_str(), "hi");
    assert!(!tb.fields.set_text("hi"));
    assert!(tb.fields.set_text("ho"));
    assert_eq!(tb.fields.text.as_str(), "ho");
}

#[test]
fn inactive_text_box_ignores_input() {
    let mut tb = text_box();
    tb.set_active(false);
    assert!(tb.fields.state.has_state(Inactive));
    assert_eq!(tb.test_input(InputEvent::PointerEvent(Position { x: 0, y: 0 }, PointerEvent::Down)), None);
    assert!(!tb.handle_input(CTXT, key(Key::Character('a'))));
    tb.set_active(true);
    assert!(tb.handle_input(CTXT, InputEvent::Cancel));
}

#[test]
fn text_box_can_edit_a_borrowed_buffer() {
    let mut buffer = TextBuffer::<4>::from_str("ab");
    {
        let mut tb: TextBox<&mut TextBuffer<4>, Editor, NoData, 4> = TextBox {
            fields: TextBoxFields {
                text: &mut buffer,
                label_properties: Editor { cursor_down_at: None },
                bounds: BoundingBox::default(),
                parent_index: 0,
                state: WidgetState::default(),
                on_text_changed: NoCallback,
                on_parent_state_changed: NoCallback,
                data: core::marker::PhantomData,
            },
            data_holder: WidgetDataHolder::new(NoData),
        };
        tb.handle_input(CTXT, InputEvent::PointerEvent(Position { x: 0, y: 0 }, PointerEvent::Down));
        tb.handle_input(CTXT, key(Key::Character('c')));
    }
    assert_eq!(buffer.as_str(), "abc");
}
