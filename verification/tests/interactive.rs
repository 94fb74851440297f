use embedded_gui::data::{BoundData, WidgetData};
use embedded_gui::geometry::{BoundingBox, MeasureConstraint, MeasureSpec, MeasuredSize, Position};
use embedded_gui::input::{InputContext, InputEvent, PointerEvent, ScrollEvent};
use embedded_gui::widgets::button::Button;
use embedded_gui::widgets::label::{CharSeq, Label, LabelProperties};
use embedded_gui::widgets::layouts::linear::column::Column;
use embedded_gui::widgets::scroll::{
    scroll_step, FlingController, PointerFling, Scroll, ScrollData, ScrollDirection, Vertical,
};
use embedded_gui::state::WidgetState;
use embedded_gui::widgets::slider::{ScrollbarConnector, Slider, SliderFields, SliderProperties};
use embedded_gui::widgets::toggle::{Checked, Pressed, Toggle};
use embedded_gui::widgets::utils::callback::StateCallback;
use embedded_gui::widgets::utils::callback::{
    DataCallback, NoCallback, SelectedCallback, ValueCallback,
};
use embedded_gui::widgets::Widget;

#[derive(Clone, Copy)]
struct Mono;

impl LabelProperties for Mono {
    fn spec_measure_text(&self, _text: CharSeq) -> MeasuredSize {
        unreachable!()
    }

    fn measure_text(&self, text: &str) -> MeasuredSize {
        MeasuredSize { width: 6 * text.len() as u32, height: 8 }
    }
}

fn label(text: &'static str) -> Label<&'static str, Mono> {
    Label {
        text,
        label_properties: Mono,
        bounds: BoundingBox::default(),
        parent_index: 0,
        on_state_changed: NoCallback,
    }
}

fn at_most(width: u32, height: u32) -> MeasureSpec {
    MeasureSpec { width: MeasureConstraint::AtMost(width), height: MeasureConstraint::AtMost(height) }
}

fn pointer(x: i32, y: i32, e: PointerEvent) -> InputEvent {
    InputEvent::PointerEvent(Position { x, y }, e)
}

const CTXT: InputContext = InputContext { target: 0 };

struct Increment;

impl DataCallback<u32> for Increment {
    fn spec_data_call(&self, _before: u32, _after: u32) -> bool {
        unreachable!()
    }

    fn call(&self, data: &mut u32) {
        *data += 1;
    }
}

#[test]
fn clicking_a_button_runs_its_callback() {
    let mut button = Button::new(label("ok")).bind(BoundData::new(0u32)).on_clicked(Increment);
    button.measure(at_most(100, 100));
    button.arrange(Position { x: 0, y: 0 });

    assert_eq!(button.test_input(pointer(3, 3, PointerEvent::Down)), Some(0));
    assert_eq!(button.test_input(pointer(30, 3, PointerEvent::Down)), None);
    assert!(button.handle_input(CTXT, pointer(3, 3, PointerEvent::Down)));
    assert_eq!(button.fields.state.state(), Button::STATE_PRESSED);
    assert_eq!(button.test_input(pointer(3, 3, PointerEvent::Up)), Some(0));
    assert!(button.handle_input(CTXT, pointer(3, 3, PointerEvent::Up)));
    assert_eq!(button.fields.state.state(), Button::STATE_HOVERED);
    assert_eq!(*button.data_holder.data.data(), 1);
    // hovering is not taken
    assert!(!button.handle_input(CTXT, pointer(3, 3, PointerEvent::Hover)));
}

#[test]
fn disabled_button_ignores_input() {
    let mut button = Button::new(label("ok")).bind(BoundData::new(0u32)).on_clicked(Increment);
    button.set_enabled(false);
    assert_eq!(button.fields.state.state(), Button::STATE_DISABLED);
    assert_eq!(button.test_input(pointer(0, 0, PointerEvent::Down)), None);
    assert!(!button.handle_input(CTXT, pointer(0, 0, PointerEvent::Down)));
    assert!(!button.handle_input(CTXT, pointer(0, 0, PointerEvent::Up)));
    assert_eq!(*button.data_holder.data.data(), 0);
    let button = button.enabled(true);
    assert_eq!(button.fields.state.state(), Button::STATE_IDLE);
}

#[test]
fn dragging_off_a_button_cancels_it() {
    let mut button = Button::new(label("ok"));
    button.measure(at_most(100, 100));
    button.arrange(Position { x: 0, y: 0 });
    button.handle_input(CTXT, pointer(1, 1, PointerEvent::Down));
    assert_eq!(button.test_input(pointer(50, 50, PointerEvent::Drag)), None);
    assert_eq!(button.fields.state.state(), Button::STATE_IDLE);
}

struct Remember;

impl SelectedCallback<bool> for Remember {
    fn spec_selected_call(&self, _selected: bool, _before: bool, _after: bool) -> bool {
        unreachable!()
    }

    fn call(&self, selected: bool, data: &mut bool) {
        *data = selected;
    }
}

fn click<W: Widget>(w: &mut W) {
    w.handle_input(CTXT, pointer(1, 1, PointerEvent::Down));
    w.handle_input(CTXT, pointer(1, 1, PointerEvent::Up));
}

#[test]
fn clicking_a_toggle_flips_it() {
    let mut toggle = Toggle::new(label("x")).bind(BoundData::new(false)).on_selected_changed(Remember);
    assert!(!toggle.fields.is_checked());
    click(&mut toggle);
    assert!(toggle.fields.is_checked());
    assert!(*toggle.data_holder.data.data());
    click(&mut toggle);
    assert!(!toggle.fields.is_checked());
    assert!(!*toggle.data_holder.data.data());
}

#[test]
fn toggle_without_manual_uncheck_stays_checked() {
    let mut toggle = Toggle::new(label("x"))
        .bind(BoundData::new(false))
        .on_selected_changed(Remember)
        .disallow_manual_uncheck();
    click(&mut toggle);
    assert!(toggle.fields.state.has_state(Checked));
    click(&mut toggle);
    assert!(toggle.fields.state.has_state(Checked));
    assert!(*toggle.data_holder.data.data());
}

#[test]
fn inactive_toggle_ignores_clicks() {
    let mut toggle = Toggle::new(label("x")).active(false);
    click(&mut toggle);
    assert!(!toggle.fields.is_checked());
    let toggle = toggle.checked(true);
    assert!(toggle.fields.is_checked());
}

#[test]
fn scroll_steps_approach_the_target() {
    assert_eq!(scroll_step(100, 0, 4), 25);
    assert_eq!(scroll_step(0, 100, 4), -25);
    assert_eq!(scroll_step(2, 0, 6), 1);
    assert_eq!(scroll_step(0, 2, 6), -1);
    assert_eq!(scroll_step(30, 10, 0), 20);
}

#[test]
fn fling_slows_down_by_its_friction() {
    let mut fling = PointerFling::new();
    fling.set_friction(3);
    fling.set_divisor(2);
    fling.set_fling_delta(4);
    fling.start_fling();
    // the last movement is scaled up by the divisor and read back divided by it
    assert_eq!(fling.fling_delta(), 4);
    fling.update();
    assert_eq!(fling.fling_delta(), 2);
    fling.update();
    fling.update();
    assert_eq!(fling.fling_delta(), 0);
    fling.set_fling_delta(-3);
    fling.start_fling();
    fling.stop_fling();
    assert_eq!(fling.fling_delta(), 0);
}

struct Report;

impl ValueCallback<Option<ScrollData>, ScrollData> for Report {
    fn spec_value_call(&self, _before: Option<ScrollData>, _value: ScrollData, _after: Option<ScrollData>) -> bool {
        unreachable!()
    }

    fn call(&self, data: &mut Option<ScrollData>, value: ScrollData) {
        *data = Some(value);
    }
}

#[test]
fn scrolling_is_clamped_to_the_content() {
    let column = Column::new()
        .add(label("a"))
        .add(label("b"))
        .add(label("c"))
        .add(label("d"))
        .add(label("e"));
    let mut scroll = Scroll::vertical(column).bind(BoundData::new(None)).on_scroll_changed(Report);
    scroll.measure(at_most(100, 20));
    assert_eq!(scroll.bounding_box().size, MeasuredSize { width: 6, height: 20 });
    assert_eq!(scroll.fields.inner.bounding_box().size, MeasuredSize { width: 6, height: 40 });

    assert!(scroll.handle_input(CTXT, InputEvent::ScrollEvent(ScrollEvent::VerticalScroll(-15))));
    assert_eq!(scroll.fields.direction.offset().y, 15);
    assert_eq!(
        *scroll.data_holder.data.data(),
        Some(ScrollData { offset: 15, maximum_offset: 20, viewport_size: 20 })
    );
    scroll.handle_input(CTXT, InputEvent::ScrollEvent(ScrollEvent::VerticalScroll(-15)));
    assert_eq!(scroll.fields.direction.offset().y, 20);
    scroll.handle_input(CTXT, InputEvent::ScrollEvent(ScrollEvent::VerticalScroll(100)));
    assert_eq!(scroll.fields.direction.offset().y, 0);

    scroll.handle_input(CTXT, InputEvent::ScrollEvent(ScrollEvent::VerticalScroll(-8)));
    scroll.arrange(Position { x: 0, y: 0 });
    assert_eq!(scroll.fields.inner.bounding_box().position, Position { x: 0, y: -8 });
}

#[test]
fn animated_scroll_reaches_its_target() {
    let column = Column::new().add(label("a")).add(label("b")).add(label("c"));
    let mut scroll = Scroll::vertical(column).scroll_time(2);
    scroll.measure(at_most(100, 8));
    scroll.fields.scroll_to(16);
    scroll.update();
    assert_eq!(scroll.fields.direction.offset().y, 8);
    // each frame covers half of the distance that is left, at least one pixel
    scroll.update();
    assert_eq!(scroll.fields.direction.offset().y, 12);
    scroll.update();
    scroll.update();
    scroll.update();
    assert_eq!(scroll.fields.direction.offset().y, 16);
    assert_eq!(scroll.fields.offset_target, Some(16));
    scroll.update();
    assert!(scroll.fields.offset_target.is_none());
    scroll.fields.set_position(3);
    assert_eq!(scroll.fields.direction.offset().y, 3);
}

#[derive(Clone, Copy)]
struct Knob {
    length: u32,
}

impl SliderProperties for Knob {
    type Direction = embedded_gui::widgets::slider::Horizontal;

    fn spec_thickness() -> u32 {
        5
    }

    fn spec_length(&self) -> u32 {
        self.length
    }

    fn thickness() -> u32 {
        5
    }

    fn length(&self) -> u32 {
        self.length
    }

    fn set_length(&mut self, length: u32) {
        self.length = length;
    }
}

struct Keep;

impl ValueCallback<i32, i32> for Keep {
    fn spec_value_call(&self, _before: i32, _value: i32, _after: i32) -> bool {
        unreachable!()
    }

    fn call(&self, data: &mut i32, value: i32) {
        *data = value;
    }
}

#[test]
fn slider_places_its_handle_by_its_value() {
    let mut slider = Slider::new(0..=100, Knob { length: 10 }).bind(BoundData::new(0i32)).on_value_changed(Keep);
    assert_eq!(slider.fields.value, 0);
    slider.fields.bounds = BoundingBox {
        position: Position { x: 5, y: 5 },
        size: MeasuredSize { width: 110, height: 5 },
    };
    slider.set_value(50);
    assert_eq!(slider.fields.value, 50);
    assert_eq!(*slider.data_holder.data.data(), 50);
    assert_eq!(
        slider.fields.slider_bounds(),
        BoundingBox { position: Position { x: 55, y: 5 }, size: MeasuredSize { width: 10, height: 5 } }
    );
    // values outside the limits are ignored
    slider.set_value(101);
    assert_eq!(slider.fields.value, 50);
    assert_eq!(*slider.data_holder.data.data(), 50);
    slider.set_value(100);
    assert_eq!(slider.fields.slider_bounds().position, Position { x: 105, y: 5 });
}

#[test]
fn slider_rounds_to_the_nearest_pixel() {
    let mut slider = Slider::new(0..=3, Knob { length: 0 });
    slider.fields.bounds.size = MeasuredSize { width: 10, height: 5 };
    slider.fields.set_value(1);
    assert_eq!(slider.fields.slider_bounds().position.x, 3);
    slider.fields.set_value(2);
    assert_eq!(slider.fields.slider_bounds().position.x, 7);
    slider.fields.set_range(-3..=3);
    slider.fields.set_value(-3);
    assert_eq!(slider.fields.slider_bounds().position.x, 0);
}

#[test]
fn scrollbar_connector_links_scroll_area_and_slider() {
    let mut connector: ScrollbarConnector<Vertical, Knob> = ScrollbarConnector::new();
    assert_eq!(*connector.data(), ScrollData { offset: 0, maximum_offset: 0, viewport_size: 0 });

    // the scroll area reports where it is
    ScrollbarConnector::on_scroll_widget_scroll_changed(
        &mut connector,
        ScrollData { offset: 10, maximum_offset: 20, viewport_size: 20 },
    );
    assert_eq!(connector.data().offset, 10);

    // the slider follows: its handle takes the viewport's share of the bar
    let mut bar = SliderFields {
        parent_index: 0,
        on_value_changed: NoCallback,
        value: 0,
        limits: 0..=0,
        bounds: BoundingBox {
            position: Position { x: 0, y: 0 },
            size: MeasuredSize { width: 100, height: 5 },
        },
        properties: Knob { length: 0 },
        state: WidgetState::default(),
        data: core::marker::PhantomData::<ScrollbarConnector<Vertical, Knob>>,
    };
    ScrollbarConnector::on_scrollbar_data_changed(&mut bar, &connector);
    assert_eq!(bar.properties.length, 50);
    assert_eq!(bar.limits, 0..=20);
    assert_eq!(bar.value, 10);

    // the slider is dragged; the scroll area jumps there
    ScrollbarConnector::on_scrollbar_value_changed(&mut connector, 15);
    let column = Column::new().add(label("a")).add(label("b")).add(label("c")).add(label("d")).add(label("e"));
    let mut scroll = Scroll::vertical(column).bind(BoundData::new(ScrollbarConnector::<Vertical, Knob>::new()));
    scroll.measure(at_most(100, 20));
    ScrollbarConnector::on_scroll_widget_data_changed(&mut scroll.fields, &connector);
    assert_eq!(scroll.fields.direction.offset().y, 15);

    // an offset set from outside makes the scroll area scroll there over time
    connector.scroll_to(5);
    ScrollbarConnector::on_scroll_widget_data_changed(&mut scroll.fields, &connector);
    assert_eq!(scroll.fields.offset_target, Some(5));
}

/// The number of frames in which a fling started by `movement` still moves.
fn moving_frames(friction: i32, divisor: i32, movement: i32) -> u32 {
    let mut fling = PointerFling::new();
    fling.set_friction(friction);
    fling.set_divisor(divisor);
    fling.set_fling_delta(movement);
    fling.start_fling();
    assert_eq!(fling.fling_delta(), movement);
    let mut frames = 0;
    for _ in 0..1000 {
        fling.update();
        if fling.fling_delta() != 0 {
            frames += 1;
        }
    }
    frames
}

#[test]
fn more_friction_gives_a_shorter_fling() {
    assert_eq!(moving_frames(1, 1, 10), 9);
    assert_eq!(moving_frames(3, 1, 10), 3);
    assert_eq!(moving_frames(1, 1, -10), 9);
    assert_eq!(moving_frames(3, 1, -10), 3);
}

#[test]
fn bigger_divisor_gives_a_longer_fling() {
    assert_eq!(moving_frames(2, 1, 3), 1);
    assert_eq!(moving_frames(2, 4, 3), 4);
}

#[test]
fn longer_scroll_time_scrolls_slower() {
    assert_eq!(scroll_step(16, 0, 2), 8);
    assert_eq!(scroll_step(16, 0, 4), 4);
    for time in [2, 4] {
        let column = Column::new().add(label("a")).add(label("b")).add(label("c"));
        let mut scroll = Scroll::vertical(column).scroll_time(time);
        scroll.measure(at_most(100, 8));
        scroll.fields.scroll_to(16);
        scroll.update();
        assert_eq!(scroll.fields.direction.offset().y, 16 / time as i32);
        // manual scrolling does not depend on the scroll time
        assert!(scroll.handle_input(CTXT, InputEvent::ScrollEvent(ScrollEvent::VerticalScroll(-3))));
        assert_eq!(scroll.fields.direction.offset().y, 16 / time as i32 + 3);
        assert!(scroll.fields.offset_target.is_none());
    }
}

#[derive(Clone, Copy)]
struct ShowPressed;

impl StateCallback<Label<&'static str, Mono, ShowPressed>> for ShowPressed {
    fn spec_state_call(
        &self,
        _before: Label<&'static str, Mono, ShowPressed>,
        _state: WidgetState,
        _after: Label<&'static str, Mono, ShowPressed>,
    ) -> bool {
        unreachable!()
    }

    fn call(&self, target: &mut Label<&'static str, Mono, ShowPressed>, state: WidgetState) {
        target.text = if state.has_state(Pressed) { "pressed" } else { "released" };
    }
}

#[test]
fn toggle_tells_its_content_of_its_state() {
    let inner = label("x").on_state_changed(ShowPressed);
    let mut toggle = Toggle::new(inner);
    toggle.arrange(Position { x: 0, y: 0 });
    assert!(toggle.handle_input(CTXT, pointer(1, 1, PointerEvent::Down)));
    assert_eq!(toggle.fields.inner.text, "pressed");
    assert!(toggle.handle_input(CTXT, InputEvent::Cancel));
    assert_eq!(toggle.fields.inner.text, "released");
    assert!(!toggle.fields.is_checked());
}
