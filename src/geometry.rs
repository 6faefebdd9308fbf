use vstd::prelude::*;

verus! {

/// A rectangle of terminal cells: its top-left corner and its size.
#[derive(Clone, Copy, Debug, PartialEq, Eq, Structural)]
pub struct Area {
    pub x: u16,
    pub y: u16,
    pub width: u16,
    pub height: u16,
}

/// The direction along which an area is cut into chunks.
#[derive(Clone, Copy, Debug, PartialEq, Eq, Structural)]
pub enum Axis {
    Horizontal,
    Vertical,
}

/// Every percentage, applied to the length that the axis cuts, stays in `u16`.
pub open spec fn percents_fit(axis: Axis, percents: Seq<u16>, area: Area) -> bool {
    forall|i: int|
        0 <= i < percents.len() ==> #[trigger] percents[i] * (match axis {
            Axis::Horizontal => area.width,
            Axis::Vertical => area.height,
        }) <= u16::MAX
}

/// The three percentages that put a band of `percent` in the middle of a length,
/// with equal margins on both sides.
pub open spec fn centered_percents_spec(percent: u16) -> Seq<u16>
    recommends
        percent <= 100,
{
    let side = ((100 - percent) / 2) as u16;
    seq![side, percent, side]
}

/// `inner` lies inside `outer`.
pub open spec fn within(inner: Area, outer: Area) -> bool {
    &&& outer.x <= inner.x
    &&& inner.x + inner.width <= outer.x + outer.width
    &&& outer.y <= inner.y
    &&& inner.y + inner.height <= outer.y + outer.height
}

/// The area's right and bottom edges are cells of the terminal, not past
/// `u16::MAX`.
pub open spec fn edges_fit(area: Area) -> bool {
    area.x + area.width <= u16::MAX && area.y + area.height <= u16::MAX
}

/// Relies on tui's `Layout::split`: it returns one chunk for each constraint;
/// the solver's required constraints keep every chunk inside the area and
/// hold its cross position and size to the area's (`x` and `width` for a
/// vertical layout, `y` and `height` for a horizontal one); the cast of the
/// solution only truncates. Where the chunks fall along the axis comes from
/// cassowary's solver, whose tables are hash maps seeded per process, so
/// nothing more is stated. The percentages are multiplied by the area's
/// length in `u16`, and the required constraints cannot all be met (the
/// solver's error is unwrapped) when an edge of the area passes `u16::MAX`,
/// hence the `requires`.
#[verifier::external_body]
fn split_by_percent(axis: Axis, percents: &Vec<u16>, area: Area) -> (r: Vec<Area>)
    requires
        percents_fit(axis, percents@, area),
        edges_fit(area),
    ensures
        r@.len() == percents@.len(),
        forall|i: int| 0 <= i < r@.len() ==> within(#[trigger] r@[i], area),
        forall|i: int|
            0 <= i < r@.len() ==> (match axis {
                Axis::Vertical => (#[trigger] r@[i]).x == area.x && r@[i].width == area.width,
                Axis::Horizontal => r@[i].y == area.y && r@[i].height == area.height,
            }),
{
    let direction = match axis {
        Axis::Horizontal => tui::layout::Direction::Horizontal,
        Axis::Vertical => tui::layout::Direction::Vertical,
    };
    let constraints: Vec<tui::layout::Constraint> =
        percents.iter().map(|p| tui::layout::Constraint::Percentage(*p)).collect();
    let rect = tui::layout::Rect { x: area.x, y: area.y, width: area.width, height: area.height };
    let chunks = tui::layout::Layout::default().direction(direction).constraints(constraints).split(rect);
    chunks.iter().map(|c| Area { x: c.x, y: c.y, width: c.width, height: c.height }).collect()
}

/// The percentages handed to the layout to centre a band of `percent`.
pub fn centered_percents(percent: u16) -> (r: Vec<u16>)
    requires
        percent <= 100,
    ensures
        r@ == centered_percents_spec(percent),
{
    let side: u16 = (100 - percent) / 2;
    vec![side, percent, side]
}

/// A chunk of `area` centred in both directions, `percent_x` of its width wide
/// and `percent_y` of its height tall, as the layout places it: the middle of
/// three rows, cut again into three columns. Where the chunk falls is the
/// layout solver's choice; the percentages handed to it are
/// `centered_percents_spec(percent_y)` and then `centered_percents_spec(percent_x)`.
/// The chunk lies inside `r`.
pub fn centered_rect(percent_x: u16, percent_y: u16, r: Area) -> (c: Area)
    requires
        edges_fit(r),
        percent_x <= 100,
        percent_y <= 100,
        percent_x * r.width <= u16::MAX,
        ((100 - percent_x) / 2) * r.width <= u16::MAX,
        percent_y * r.height <= u16::MAX,
        ((100 - percent_y) / 2) * r.height <= u16::MAX,
    ensures
        within(c, r),
{
    let rows_percents = centered_percents(percent_y);
    let rows = split_by_percent(Axis::Vertical, &rows_percents, r);
    let middle = rows[1];
    let cols_percents = centered_percents(percent_x);
    assert(within(middle, r));
    let cols = split_by_percent(Axis::Horizontal, &cols_percents, middle);
    cols[1]
}

} // verus!
