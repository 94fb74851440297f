use embedded_gui::data::{BoundData, WidgetData};
use embedded_gui::geometry::{BoundingBox, MeasureConstraint, MeasureSpec, MeasuredSize, Position};
use embedded_gui::input::{InputContext, InputEvent, PointerEvent};
use embedded_gui::state::WidgetState;
use embedded_gui::widgets::background::{Background, BackgroundProperties};
use embedded_gui::widgets::border::{Border, BorderProperties};
use embedded_gui::widgets::fill::{
    Bottom, Center, FillParent, HorizontalAlignment, Left, Right, Top, VerticalAlignment,
};
use embedded_gui::widgets::graphical::checkbox::{CheckBox, CheckBoxProperties};
use embedded_gui::widgets::graphical::radio::{RadioButton, RadioButtonProperties};
use embedded_gui::widgets::label::{CharSeq, Label, LabelProperties};
use embedded_gui::widgets::primitives::border::{
    Border as BorderWidget, BorderProperties as BorderWidgetProperties,
};
use embedded_gui::widgets::primitives::spacing::Spacing;
use embedded_gui::widgets::primitives::visibility::Visibility;
use embedded_gui::widgets::spacing::Spacing as DataSpacing;
use embedded_gui::widgets::textbox::{TextBox, TextBoxProperties};
use embedded_gui::widgets::utils::callback::{DataChangedCallback, NoCallback, StateCallback};
use embedded_gui::widgets::utils::wrapper::WrapperBindable;
use embedded_gui::widgets::wrapper::Wrapper;
use embedded_gui::widgets::Widget;

#[derive(Clone, Copy)]
struct Mono;

impl LabelProperties for Mono {
    fn spec_measure_text(&self, _text: CharSeq) -> MeasuredSize {
        unreachable!()
    }

    fn measure_text(&self, text: &str) -> MeasuredSize {
        MeasuredSize { width: 6 * text.len() as u32, height: 8 }
    }
}

fn label(text: &'static str) -> Label<&'static str, Mono> {
    Label {
        text,
        label_properties: Mono,
        bounds: BoundingBox::default(),
        parent_index: 0,
        on_state_changed: NoCallback,
    }
}

fn exactly(width: u32, height: u32) -> MeasureSpec {
    MeasureSpec { width: MeasureConstraint::Exactly(width), height: MeasureConstraint::Exactly(height) }
}

fn at_most(width: u32, height: u32) -> MeasureSpec {
    MeasureSpec { width: MeasureConstraint::AtMost(width), height: MeasureConstraint::AtMost(height) }
}

#[derive(Default)]
struct Paint {
    color: u32,
    border: u32,
    width: u32,
}

impl BackgroundProperties for Paint {
    type Color = u32;

    fn spec_background_color(&self) -> u32 {
        self.color
    }

    fn set_background_color(&mut self, color: u32) {
        self.color = color;
    }
}

impl BorderProperties for Paint {
    type Color = u32;

    fn spec_border_color(&self) -> u32 {
        self.border
    }

    fn spec_border_width(&self) -> u32 {
        self.width
    }

    fn set_border_color(&mut self, color: u32) {
        self.border = color;
    }

    fn get_border_width(&self) -> u32 {
        self.width
    }
}

impl BorderWidgetProperties for Paint {
    type Color = u32;

    fn spec_border_color(&self) -> u32 {
        self.border
    }

    fn spec_border_width(&self) -> u32 {
        self.width
    }

    fn border_color(&mut self, color: u32) {
        self.border = color;
    }

    fn get_border_width(&self) -> u32 {
        self.width
    }
}

#[test]
fn alignment_offsets() {
    assert_eq!(Left::horizontal_offset(100, 20), 0);
    assert_eq!(Right::horizontal_offset(100, 20), 80);
    assert_eq!(<Center as HorizontalAlignment>::horizontal_offset(100, 20), 40);
    assert_eq!(<Center as HorizontalAlignment>::horizontal_offset(100, 21), 39);
    assert_eq!(Top::vertical_offset(10, 4), 0);
    assert_eq!(Bottom::vertical_offset(10, 4), 6);
    assert_eq!(<Center as VerticalAlignment>::vertical_offset(10, 4), 3);
    // content larger than the area sticks out on both sides when centered
    assert_eq!(<Center as HorizontalAlignment>::horizontal_offset(10, 20), -5);
}

#[test]
fn fill_parent_takes_the_offered_space_and_centers_content() {
    let mut fill = FillParent::both(label("ab"));
    fill.measure(exactly(100, 40));
    assert_eq!(fill.bounding_box().size, MeasuredSize { width: 100, height: 40 });
    assert_eq!(fill.inner.bounds.size, MeasuredSize { width: 100, height: 40 });

    let mut fill = FillParent::both(label("ab"));
    fill.measure(at_most(100, 40));
    assert_eq!(fill.bounding_box().size, MeasuredSize { width: 100, height: 40 });
    assert_eq!(fill.inner.bounds.size, MeasuredSize { width: 12, height: 8 });
    fill.arrange(Position { x: 10, y: 10 });
    assert_eq!(fill.bounding_box().position, Position { x: 10, y: 10 });
    assert_eq!(fill.inner.bounds.position, Position { x: 10 + 44, y: 10 + 16 });
}

#[test]
fn fill_parent_stretches_only_in_its_direction() {
    let mut fill = FillParent::horizontal(label("ab")).align_horizontal(Right);
    fill.measure(at_most(100, 40));
    assert_eq!(fill.bounding_box().size, MeasuredSize { width: 100, height: 8 });
    fill.arrange(Position { x: 0, y: 0 });
    assert_eq!(fill.inner.bounds.position, Position { x: 88, y: 0 });

    let mut fill = FillParent::vertical(label("ab")).align_vertical(Bottom);
    fill.measure(MeasureSpec {
        width: MeasureConstraint::AtMost(100),
        height: MeasureConstraint::Unspecified,
    });
    assert_eq!(fill.bounding_box().size, MeasuredSize { width: 12, height: 8 });
    assert_eq!(fill.children(), 1);
    assert!(!fill.is_selectable());
}

#[test]
fn background_is_transparent_for_layout() {
    let mut bg = Background::<_, Paint>::new(label("abc")).background_color(7);
    assert_eq!(bg.background_properties.color, 7);
    bg.measure(at_most(100, 100));
    bg.arrange(Position { x: 2, y: 3 });
    assert_eq!(
        bg.bounding_box(),
        BoundingBox { position: Position { x: 2, y: 3 }, size: MeasuredSize { width: 18, height: 8 } }
    );
    assert_eq!(bg.children(), 1);
    bg.set_background_color(9);
    assert_eq!(bg.background_properties.color, 9);
}

#[test]
fn border_surrounds_its_content() {
    let mut border = Border::<_, Paint>::new(label("abc")).border_color(5);
    border.border_properties.width = 2;
    assert_eq!(border.border_properties.border, 5);
    border.measure(at_most(100, 100));
    border.arrange(Position { x: 10, y: 20 });
    assert_eq!(border.inner.bounds.position, Position { x: 12, y: 22 });
    assert_eq!(
        border.bounding_box(),
        BoundingBox { position: Position { x: 10, y: 20 }, size: MeasuredSize { width: 22, height: 12 } }
    );
}

#[test]
fn border_shrinks_the_space_of_its_content() {
    let mut border = Border::<_, Paint>::new(label("abcdefgh"));
    border.border_properties.width = 3;
    border.measure(at_most(20, 100));
    assert_eq!(border.inner.bounds.size, MeasuredSize { width: 14, height: 8 });
    assert_eq!(border.bounding_box().size, MeasuredSize { width: 20, height: 14 });
}

#[test]
fn container_border_surrounds_its_content() {
    let mut border = BorderWidget::<_, Paint>::new(label("ab")).border_color(1);
    border.widget.border_properties.width = 1;
    border.attach(4, 5);
    assert_eq!(border.parent_index(), 4);
    assert_eq!(border.widget.inner.parent_index, 5);
    border.measure(at_most(100, 100));
    border.arrange(Position { x: 0, y: 0 });
    assert_eq!(
        border.bounding_box(),
        BoundingBox { position: Position { x: 0, y: 0 }, size: MeasuredSize { width: 14, height: 10 } }
    );
    assert_eq!(border.widget.inner.bounds.position, Position { x: 1, y: 1 });
}

#[test]
fn container_border_state_keeps_selection() {
    let mut border = BorderWidget::<_, Paint>::new(label("ab"));
    border.state = WidgetState(0x8000_0000);
    Widget::on_state_changed(&mut border, WidgetState(2));
    assert_eq!(border.state, WidgetState(0x8000_0002));
}

#[test]
fn spacing_adds_space_around_content() {
    let mut spacing = Spacing::new(label("ab")).left(1).right(2).top(3).bottom(4);
    spacing.measure(at_most(100, 100));
    spacing.arrange(Position { x: 0, y: 0 });
    assert_eq!(spacing.inner.bounds.position, Position { x: 1, y: 3 });
    assert_eq!(
        spacing.bounding_box(),
        BoundingBox { position: Position { x: 0, y: 0 }, size: MeasuredSize { width: 15, height: 15 } }
    );

    let mut all = Spacing::new(label("abcdef")).all(5);
    all.measure(at_most(20, 100));
    assert_eq!(all.inner.bounds.size.width, 10);
    assert_eq!(all.bounding_box().size, MeasuredSize { width: 20, height: 18 });
}

#[test]
fn data_spacing_does_not_shrink_the_content() {
    let mut spacing = DataSpacing::new(label("abcdef")).left(5).right(5).top(1).bottom(1);
    spacing.measure(at_most(20, 100));
    assert_eq!(spacing.widget.inner.bounds.size.width, 20);
    spacing.arrange(Position { x: 0, y: 0 });
    assert_eq!(spacing.widget.inner.bounds.position, Position { x: 5, y: 1 });
    assert_eq!(spacing.bounding_box().size, MeasuredSize { width: 30, height: 10 });
}

#[test]
fn hidden_widget_takes_no_space_and_no_input() {
    let mut v = Visibility::new(label("ab"));
    v.measure(at_most(100, 100));
    v.arrange(Position { x: 3, y: 3 });
    assert_eq!(v.bounding_box().size, MeasuredSize { width: 12, height: 8 });
    v.set_visible(false);
    assert_eq!(
        v.bounding_box(),
        BoundingBox { position: Position { x: 3, y: 3 }, size: MeasuredSize { width: 0, height: 0 } }
    );
    assert_eq!(v.test_input(InputEvent::PointerEvent(Position { x: 4, y: 4 }, PointerEvent::Down)), None);
    let v = v.visible(true);
    assert!(v.visibility);
}

struct ShowWhen;

impl<W> DataChangedCallback<Visibility<W>, bool> for ShowWhen {
    fn spec_data_changed_call(&self, _before: Visibility<W>, _data: bool, _after: Visibility<W>) -> bool {
        unreachable!()
    }

    fn call(&self, target: &mut Visibility<W>, data: &bool) {
        target.set_visible(*data);
    }
}

#[test]
fn bound_data_drives_the_widget() {
    let mut w = Visibility::new(label("ab")).bind(BoundData::new(false)).on_data_changed(ShowWhen);
    assert!(w.widget.visibility);
    w.update();
    assert!(!w.widget.visibility);
    w.reset_changed();
    assert!(!w.data_holder.data.is_changed());
    // no change, so the callback does not run again
    w.widget.set_visible(true);
    w.update();
    assert!(w.widget.visibility);
}

struct Count;

impl<W> DataChangedCallback<W, u32> for Count {
    fn spec_data_changed_call(&self, _before: W, _data: u32, _after: W) -> bool {
        unreachable!()
    }

    fn call(&self, _target: &mut W, _data: &u32) {}
}

#[test]
fn transparent_wrapper_shares_the_index_of_its_widget() {
    let mut w = Wrapper::wrap(label("ab"), BoundData::new(3u32)).on_data_changed(Count);
    assert_eq!(w.children(), 0);
    w.attach(2, 6);
    assert_eq!(w.parent_index(), 2);
    w.measure(at_most(100, 100));
    assert_eq!(w.bounding_box().size, MeasuredSize { width: 12, height: 8 });
    assert_eq!(*w.data_holder.data.data(), 3);
    assert!(!w.handle_input(InputContext { target: 0 }, InputEvent::Cancel));
}

#[derive(Default)]
struct BoxStyle {
    background: u32,
    border: u32,
    mark: u32,
    on: bool,
}

impl CheckBoxProperties for BoxStyle {
    type Color = u32;

    fn spec_background_color(&self) -> u32 {
        self.background
    }

    fn spec_border_color(&self) -> u32 {
        self.border
    }

    fn spec_check_mark_color(&self) -> u32 {
        self.mark
    }

    fn spec_checked(&self) -> bool {
        self.on
    }

    fn spec_measure(&self, spec: MeasureSpec) -> MeasuredSize {
        CheckBoxProperties::measure(self, spec)
    }

    fn set_background_color(&mut self, color: u32) {
        self.background = color;
    }

    fn set_border_color(&mut self, color: u32) {
        self.border = color;
    }

    fn set_check_mark_color(&mut self, color: u32) {
        self.mark = color;
    }

    fn set_checked(&mut self, checked: bool) {
        self.on = checked;
    }

    fn measure(&self, _spec: MeasureSpec) -> MeasuredSize {
        MeasuredSize { width: 10, height: 10 }
    }
}

impl RadioButtonProperties for BoxStyle {
    type Color = u32;

    fn spec_background_color(&self) -> u32 {
        self.background
    }

    fn spec_border_color(&self) -> u32 {
        self.border
    }

    fn spec_check_mark_color(&self) -> u32 {
        self.mark
    }

    fn spec_selected(&self) -> bool {
        self.on
    }

    fn spec_measure(&self, spec: MeasureSpec) -> MeasuredSize {
        RadioButtonProperties::measure(self, spec)
    }

    fn set_background_color(&mut self, color: u32) {
        self.background = color;
    }

    fn set_border_color(&mut self, color: u32) {
        self.border = color;
    }

    fn set_check_mark_color(&mut self, color: u32) {
        self.mark = color;
    }

    fn set_selected(&mut self, selected: bool) {
        self.on = selected;
    }

    fn measure(&self, _spec: MeasureSpec) -> MeasuredSize {
        MeasuredSize { width: 12, height: 12 }
    }
}

#[test]
fn check_box_keeps_its_properties() {
    let mut cb = CheckBox::<BoxStyle>::new()
        .background_color(1)
        .border_color(2)
        .check_mark_color(3)
        .checked(true);
    assert_eq!(cb.checkbox_properties.background, 1);
    assert_eq!(cb.checkbox_properties.border, 2);
    assert_eq!(cb.checkbox_properties.mark, 3);
    assert!(cb.checkbox_properties.on);
    cb.set_checked(false);
    assert!(!cb.checkbox_properties.on);
    cb.measure(at_most(1, 1));
    assert_eq!(cb.bounding_box().size, MeasuredSize { width: 10, height: 10 });
    assert!(cb.is_selectable());
    cb.attach(3, 4);
    assert_eq!(cb.parent_index(), 3);
}

#[test]
fn radio_button_keeps_its_properties() {
    let mut rb = RadioButton::<BoxStyle>::new().selected(true).check_mark_color(8);
    assert!(rb.radio_properties.on);
    assert_eq!(rb.radio_properties.mark, 8);
    rb.set_selected(false);
    assert!(!rb.radio_properties.on);
    rb.set_background_color(4);
    rb.set_border_color(6);
    assert_eq!(rb.radio_properties.background, 4);
    assert_eq!(rb.radio_properties.border, 6);
    rb.measure(at_most(1, 1));
    assert_eq!(rb.bounding_box().size, MeasuredSize { width: 12, height: 12 });
    let styled = RadioButton::with_style(BoxStyle { on: true, ..BoxStyle::default() });
    assert!(styled.radio_properties.on);
}

#[derive(Clone, Copy)]
struct Marked;

impl StateCallback<Label<&'static str, Mono, Marked>> for Marked {
    fn spec_state_call(
        &self,
        _before: Label<&'static str, Mono, Marked>,
        _state: WidgetState,
        _after: Label<&'static str, Mono, Marked>,
    ) -> bool {
        unreachable!()
    }

    fn call(&self, target: &mut Label<&'static str, Mono, Marked>, state: WidgetState) {
        target.parent_index = state.0 as usize;
    }
}

#[test]
fn label_measures_its_text_and_runs_its_state_callback() {
    let mut l = label("hello").on_state_changed(Marked);
    l.measure(at_most(20, 100));
    assert_eq!(l.bounding_box().size, MeasuredSize { width: 20, height: 8 });
    l.measure(exactly(50, 50));
    assert_eq!(l.bounding_box().size, MeasuredSize { width: 50, height: 50 });
    Widget::on_state_changed(&mut l, WidgetState(7));
    assert_eq!(l.parent_index, 7);
}

struct Wrapping;

impl TextBoxProperties for Wrapping {
    fn spec_measure_text(&self, _text: CharSeq, _spec: MeasureSpec) -> MeasuredSize {
        unreachable!()
    }

    fn measure_text(&self, text: &str, spec: MeasureSpec) -> MeasuredSize {
        let width = 6 * text.len() as u32;
        match spec.width {
            MeasureConstraint::AtMost(limit) if width > limit => {
                MeasuredSize { width: limit, height: 8 * ((width + limit - 1) / limit) }
            }
            _ => MeasuredSize { width, height: 8 },
        }
    }
}

#[test]
fn text_box_measures_wrapped_text() {
    let mut tb = TextBox {
        text: String::from("abcdefghij"),
        label_properties: Wrapping,
        bounds: BoundingBox::default(),
        parent_index: 0,
        on_state_changed: NoCallback,
    };
    tb.measure(at_most(30, 100));
    assert_eq!(tb.bounding_box().size, MeasuredSize { width: 30, height: 16 });
    assert!(tb.is_selectable());
    let bound = tb.bind(BoundData::new(0u8));
    assert_eq!(bound.widget.text, "abcdefghij");
}

#[test]
fn fill_parent_records_its_parent_once_attached() {
    let mut fill = FillParent::both(label("ab"));
    assert_eq!(fill.parent_index, None);
    assert_eq!(fill.parent_index(), 0);
    fill.attach(3, 4);
    assert_eq!(fill.parent_index, Some(3));
    assert_eq!(fill.parent_index(), 3);
    assert_eq!(fill.inner.parent_index, 4);
}
