use embedded_gui::geometry::{BoundingBox, MeasureConstraint, MeasureSpec, MeasuredSize, Position};
use embedded_gui::rendering::{Canvas, WidgetRenderer};
use embedded_gui::widgets::label::{CharSeq, Label, LabelProperties};
use embedded_gui::widgets::primitives::spacing::Spacing;
use embedded_gui::widgets::primitives::visibility::Visibility;
use embedded_gui::widgets::layouts::frame::Frame;
use embedded_gui::widgets::layouts::linear::column::Column;
use embedded_gui::widgets::layouts::linear::row::Row;
use embedded_gui::widgets::layouts::linear::{Cell, Weight};
use embedded_gui::widgets::utils::callback::NoCallback;
use embedded_gui::widgets::Widget;

/// Every character is 6 pixels wide and 8 high.
#[derive(Clone, Copy)]
struct Mono;

impl LabelProperties for Mono {
    fn spec_measure_text(&self, _text: CharSeq) -> MeasuredSize {
        unreachable!()
    }

    fn measure_text(&self, text: &str) -> MeasuredSize {
        MeasuredSize { width: 6 * text.len() as u32, height: 8 }
    }
}

fn label(text: &'static str) -> Label<&'static str, Mono> {
    Label {
        text,
        label_properties: Mono,
        bounds: BoundingBox::default(),
        parent_index: 0,
        on_state_changed: NoCallback,
    }
}

fn at_most(width: u32, height: u32) -> MeasureSpec {
    MeasureSpec { width: MeasureConstraint::AtMost(width), height: MeasureConstraint::AtMost(height) }
}

#[test]
fn row_places_cells_side_by_side() {
    let mut row = Row::new().spacing(2).add(label("ab")).add(label("abc"));
    row.measure(at_most(100, 50));
    assert_eq!(row.bounding_box().size, MeasuredSize { width: 32, height: 8 });

    row.arrange(Position { x: 5, y: 7 });
    assert_eq!(row.bounding_box().position, Position { x: 5, y: 7 });
    assert_eq!(row.widgets.parent.object.inner.bounds.position, Position { x: 5, y: 7 });
    assert_eq!(row.widgets.object.inner.bounds.position, Position { x: 19, y: 7 });
    assert_eq!(row.children(), 2);
}

#[test]
fn column_places_cells_below_each_other() {
    let mut column = Column::new().add(label("abcd")).add(label("a"));
    column.measure(at_most(100, 50));
    assert_eq!(column.bounding_box().size, MeasuredSize { width: 24, height: 16 });

    column.arrange(Position { x: 0, y: 10 });
    assert_eq!(column.widgets.parent.object.inner.bounds.position, Position { x: 0, y: 10 });
    assert_eq!(column.widgets.object.inner.bounds.position, Position { x: 0, y: 18 });
}

#[test]
fn unconstrained_row_takes_its_content_size() {
    let mut row = Row::new().spacing(3).add(label("a")).add(label("bb")).add(label("ccc"));
    row.measure(MeasureSpec {
        width: MeasureConstraint::Unspecified,
        height: MeasureConstraint::Exactly(20),
    });
    assert_eq!(row.bounding_box().size, MeasuredSize { width: 6 + 12 + 18 + 6, height: 20 });
}

#[test]
fn weighted_cell_takes_the_rest_of_the_space() {
    let mut row = Row::new().add(label("ab")).add(label("x")).weight(1);
    row.measure(at_most(100, 50));
    assert_eq!(row.bounding_box().size, MeasuredSize { width: 100, height: 8 });
    assert_eq!(row.widgets.object.inner.bounds.size.width, 88);
    assert_eq!(row.widgets.parent.object.inner.bounds.size.width, 12);
}

#[test]
fn weights_share_the_space_in_proportion() {
    let mut row = Row::new()
        .add_cell(Cell::new(label("a")).weight(1))
        .add(label("b"))
        .weight(3);
    row.measure(at_most(42, 8));
    // 10 pixels per unit of weight; the 2 left over go to the heavier cell
    assert_eq!(row.widgets.parent.object.inner.bounds.size.width, 10);
    assert_eq!(row.widgets.object.inner.bounds.size.width, 32);
    assert_eq!(Weight::new(4).0, 4);
}

#[test]
fn weighted_cells_fill_the_space_exactly() {
    // 10 pixels for the weights 1, 2 and 3 around a cell without weight: one pixel per
    // unit of weight, the 4 pixels left over go one per unit to the heaviest cells first
    let mut row = Row::new()
        .add_cell(Cell::new(label("")).weight(1))
        .add(label(""))
        .weight(2)
        .add(label(""))
        .add(label(""))
        .weight(3);
    row.measure(at_most(10, 8));
    assert_eq!(row.widgets.parent.parent.parent.object.inner.bounds.size.width, 1);
    assert_eq!(row.widgets.parent.parent.object.inner.bounds.size.width, 3);
    assert_eq!(row.widgets.parent.object.inner.bounds.size.width, 0);
    assert_eq!(row.widgets.object.inner.bounds.size.width, 6);
    assert_eq!(row.bounding_box().size.width, 10);
}

#[test]
fn locate_finds_the_cell_of_a_descendant() {
    let row = Row::new().add(label("a")).add(label("b")).add(label("c"));
    assert_eq!(row.locate(0), Some((0, 0)));
    assert_eq!(row.locate(1), Some((1, 0)));
    assert_eq!(row.locate(2), Some((2, 0)));
    assert_eq!(row.locate(3), None);
}

#[test]
fn frame_layers_share_the_area() {
    let mut frame = Frame::new().add_layer(label("abc")).add_layer(label("a"));
    frame.measure(at_most(100, 100));
    assert_eq!(frame.bounding_box().size, MeasuredSize { width: 18, height: 8 });

    frame.arrange(Position { x: 3, y: 4 });
    assert_eq!(frame.widgets.parent.object.bounds.position, Position { x: 3, y: 4 });
    assert_eq!(frame.widgets.object.bounds.position, Position { x: 3, y: 4 });
    assert_eq!(frame.children(), 2);
    assert_eq!(frame.locate(1), Some((1, 0)));
    assert_eq!(frame.locate(2), None);
}

/// Records what was drawn, and fails on one text if asked to.
struct Log {
    drawn: Vec<&'static str>,
    fail_on: Option<&'static str>,
}

impl Canvas for Log {
    type Error = &'static str;
}

impl WidgetRenderer<Log> for Label<&'static str, Mono> {
    fn spec_draws(
        &self,
        _canvas: Log,
        _after: Self,
        _canvas_after: Log,
        _r: Result<(), &'static str>,
    ) -> bool {
        unreachable!()
    }

    fn draw(&mut self, canvas: &mut Log) -> Result<(), &'static str> {
        if canvas.fail_on == Some(self.text) {
            return Err(self.text);
        }
        canvas.drawn.push(self.text);
        Ok(())
    }
}

fn log() -> Log {
    Log { drawn: Vec::new(), fail_on: None }
}

#[test]
fn row_draws_its_cells_in_order() {
    let mut row = Row::new().add(label("a")).add(label("b")).add(label("c"));
    let mut canvas = log();
    assert_eq!(row.draw(&mut canvas), Ok(()));
    assert_eq!(canvas.drawn, vec!["a", "b", "c"]);
}

#[test]
fn frame_draws_its_layers_bottom_to_top() {
    let mut frame = Frame::new().add_layer(label("bottom")).add_layer(label("top"));
    let mut canvas = log();
    assert_eq!(frame.draw(&mut canvas), Ok(()));
    assert_eq!(canvas.drawn, vec!["bottom", "top"]);
}

#[test]
fn drawing_stops_at_the_first_failure() {
    let mut column = Column::new().add(label("a")).add(label("b")).add(label("c"));
    let mut canvas = Log { drawn: Vec::new(), fail_on: Some("b") };
    assert_eq!(column.draw(&mut canvas), Err("b"));
    assert_eq!(canvas.drawn, vec!["a"]);
}

#[test]
fn hidden_widget_draws_nothing() {
    let mut hidden = Visibility::new(label("a")).visible(false);
    let mut canvas = log();
    assert_eq!(hidden.draw(&mut canvas), Ok(()));
    assert!(canvas.drawn.is_empty());

    let mut shown = Spacing::new(Visibility::new(label("a")));
    assert_eq!(shown.draw(&mut canvas), Ok(()));
    assert_eq!(canvas.drawn, vec!["a"]);
}

#[test]
fn attaching_a_layout_records_the_parent() {
    let mut row = Row::new().add(label("a")).add(label("b"));
    row.attach(7, 1);
    assert_eq!(row.parent_index(), 7);
    assert_eq!(row.widgets.object.inner.parent_index, 7);

    let mut frame = Frame::new().add_layer(label("a")).add_layer(label("b"));
    frame.attach(3, 4);
    assert_eq!(frame.parent_index(), 3);
}

#[test]
fn column_shares_its_height_by_weight_around_a_fixed_cell() {
    // a cell with weight 1, a 40 px high widget without weight, a cell with weight 2,
    // in 160 px: 40, 40 and 80 px
    let fixed = Spacing::new(label("x")).top(16).bottom(16);
    let mut column = Column::new()
        .add_cell(Cell::new(label("a")).weight(1))
        .add(fixed)
        .add(label("b"))
        .weight(2);
    column.measure(MeasureSpec {
        width: MeasureConstraint::AtMost(100),
        height: MeasureConstraint::Exactly(160),
    });
    assert_eq!(column.widgets.parent.parent.object.inner.bounds.size.height, 40);
    assert_eq!(column.widgets.parent.object.inner.bounding_box().size.height, 40);
    assert_eq!(column.widgets.object.inner.bounds.size.height, 80);
    assert_eq!(column.bounding_box().size.height, 160);

    column.arrange(Position { x: 0, y: 0 });
    assert_eq!(column.widgets.parent.parent.object.inner.bounds.position.y, 0);
    assert_eq!(column.widgets.parent.object.inner.bounding_box().position.y, 40);
    assert_eq!(column.widgets.object.inner.bounds.position.y, 80);
}

#[test]
fn heavier_cell_never_takes_less_space() {
    // one pixel for the weights 1 and 2: it is left over and goes to the heavier cell
    let mut row = Row::new()
        .add_cell(Cell::new(label("")).weight(1))
        .add(label(""))
        .weight(2);
    row.measure(at_most(1, 8));
    assert_eq!(row.widgets.parent.object.inner.bounds.size.width, 0);
    assert_eq!(row.widgets.object.inner.bounds.size.width, 1);

    // 10 pixels for the weights 3 and 4: one per unit, the 3 left over to the heavier cell
    let mut row = Row::new()
        .add_cell(Cell::new(label("")).weight(3))
        .add(label(""))
        .weight(4);
    row.measure(at_most(10, 8));
    assert_eq!(row.widgets.parent.object.inner.bounds.size.width, 3);
    assert_eq!(row.widgets.object.inner.bounds.size.width, 7);

    // equal weights: the earlier cell is served first
    let mut row = Row::new()
        .add_cell(Cell::new(label("")).weight(2))
        .add(label(""))
        .weight(2);
    row.measure(at_most(5, 8));
    assert_eq!(row.widgets.parent.object.inner.bounds.size.width, 3);
    assert_eq!(row.widgets.object.inner.bounds.size.width, 2);

    // 30 pixels divide evenly: the heavier cell receives more
    let mut row = Row::new()
        .add_cell(Cell::new(label("")).weight(1))
        .add(label(""))
        .weight(2);
    row.measure(at_most(30, 8));
    assert_eq!(row.widgets.parent.object.inner.bounds.size.width, 10);
    assert_eq!(row.widgets.object.inner.bounds.size.width, 20);
}
