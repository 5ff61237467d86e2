//! The forecast graph sink: lays the maximum-temperature series out as
//! columns of canvas cells.
//!
//! The component decides the canvas geometry (height, width and the position
//! of every cell to mark); actually putting glyphs on a terminal canvas is
//! the rendering collaborator's job.

use vstd::prelude::*;

verus! {

/// The graph component; the display state lives in [`GraphComponentState`].
#[derive(Debug)]
pub struct GraphComponent;

/// Display state owned by the graph sink.
#[derive(Debug, Clone, PartialEq, Eq)]
pub struct GraphComponentState {
    pub title: String,
    /// How many cells wide each data point is drawn.
    pub point_width: u16,
    pub height: u16,
    pub width: u16,
    pub data_points: Vec<u8>,
}

/// The update message the dispatcher sends to the graph sink.
#[derive(Debug, Clone, PartialEq, Eq)]
pub struct GraphComponentMessage {
    pub max_temp_points: Vec<u16>,
}

/// One canvas position to mark with the plot glyph.
#[derive(Debug, Clone, Copy, PartialEq, Eq)]
pub struct CanvasCell {
    pub x: u16,
    pub y: u16,
}

/// The cells of one plotted column: data point `pt_idx` drawn `point_width`
/// cells wide at height `y`.
pub open spec fn column_cells(pt_idx: int, point_width: u16, y: u16) -> Seq<CanvasCell> {
    Seq::new(
        point_width as nat,
        |w: int| (CanvasCell { x: (pt_idx * point_width + w) as u16, y }),
    )
}

/// All cells of the plot: one column per data point, where a point's height
/// is its distance below the series maximum.
pub open spec fn graph_cells(points: Seq<u16>, point_width: u16, max: u16) -> Seq<CanvasCell>
    decreases points.len(),
{
    if points.len() == 0 {
        Seq::empty()
    } else {
        graph_cells(points.drop_last(), point_width, max) + column_cells(
            points.len() - 1,
            point_width,
            (max - points.last()) as u16,
        )
    }
}

/// The least element of a non-empty series (0 for an empty one).
pub open spec fn min_of(s: Seq<u16>) -> u16
    decreases s.len(),
{
    if s.len() == 0 {
        0u16
    } else if s.len() == 1 {
        s[0]
    } else {
        let m = min_of(s.drop_last());
        if s.last() < m {
            s.last()
        } else {
            m
        }
    }
}

/// The greatest element of a non-empty series (0 for an empty one).
pub open spec fn max_of(s: Seq<u16>) -> u16
    decreases s.len(),
{
    if s.len() == 0 {
        0u16
    } else if s.len() == 1 {
        s[0]
    } else {
        let m = max_of(s.drop_last());
        if s.last() > m {
            s.last()
        } else {
            m
        }
    }
}

impl GraphComponentState {
    pub fn new() -> (s: Self)
        ensures
            s.title@ == "Graph"@,
            s.point_width == 3,
            s.height == 10,
            s.width == 10,
            s.data_points@ == Seq::<u8>::empty(),
    {
        GraphComponentState {
            title: String::from_str("Graph"),
            point_width: 3,
            height: 10,
            width: 10,
            data_points: Vec::new(),
        }
    }
}

impl GraphComponent {
    /// Append the cells of one plotted column: `point_width` marks in a row
    /// at height `y`, starting at column `pt_idx * point_width`.
    pub fn add_to_canvas(
        &self,
        point_width: u16,
        pt_idx: usize,
        y: u16,
        cells: &mut Vec<CanvasCell>,
    )
        requires
            point_width > 0 ==> pt_idx <= u16::MAX && (pt_idx as int + 1) * point_width as int
                <= u16::MAX as int + 1,
        ensures
            final(cells)@ == old(cells)@ + column_cells(pt_idx as int, point_width, y),
    {
        proof {
            assert((pt_idx as int + 1) * point_width as int == pt_idx as int * point_width as int
                + point_width as int) by (nonlinear_arith);
        }
        let ghost prior: Seq<CanvasCell> = cells@;
        let mut width_idx: u16 = 0;
        while width_idx < point_width
            invariant
                width_idx <= point_width,
                point_width > 0 ==> pt_idx <= u16::MAX && pt_idx as int * point_width as int
                    + point_width as int <= u16::MAX as int + 1,
                cells@ == prior + column_cells(pt_idx as int, point_width, y).take(
                    width_idx as int,
                ),
            decreases point_width - width_idx,
        {
            let x = (pt_idx as u16) * point_width + width_idx;
            cells.push(CanvasCell { x, y });
            proof {
                assert(column_cells(pt_idx as int, point_width, y).take(width_idx as int + 1)
                    =~= column_cells(pt_idx as int, point_width, y).take(width_idx as int)
                    + seq![(CanvasCell { x, y })]);
            }
            width_idx = width_idx + 1;
        }
        proof {
            assert(column_cells(pt_idx as int, point_width, y).take(point_width as int)
                =~= column_cells(pt_idx as int, point_width, y));
        }
    }

    /// Plot the whole series: each point becomes one column whose height is
    /// the point's distance below `max`.
    pub fn populate_graph(
        &mut self,
        point_width: u16,
        data_points: &Vec<u16>,
        min: u16,
        max: u16,
    ) -> (cells: Vec<CanvasCell>)
        requires
            forall|i: int|
                0 <= i < data_points@.len() ==> min <= #[trigger] data_points@[i] <= max,
            point_width > 0 ==> data_points@.len() * point_width as int <= u16::MAX as int + 1,
        ensures
            cells@ == graph_cells(data_points@, point_width, max),
    {
        let mut cells: Vec<CanvasCell> = Vec::new();
        let n = data_points.len();
        let mut pt_idx: usize = 0;
        while pt_idx < n
            invariant
                pt_idx <= n,
                n == data_points@.len(),
                forall|i: int|
                    0 <= i < data_points@.len() ==> min <= #[trigger] data_points@[i] <= max,
                point_width > 0 ==> n * point_width as int <= u16::MAX as int + 1,
                cells@ == graph_cells(data_points@.take(pt_idx as int), point_width, max),
            decreases n - pt_idx,
        {
            let value = data_points[pt_idx];
            let y = (max - min) - (value - min);
            proof {
                if point_width > 0 {
                    vstd::arithmetic::mul::lemma_mul_inequality(
                        pt_idx as int + 1,
                        n as int,
                        point_width as int,
                    );
                    assert(pt_idx <= u16::MAX) by (nonlinear_arith)
                        requires
                            pt_idx as int + 1 <= n as int,
                            n as int * point_width as int <= u16::MAX as int + 1,
                            point_width as int >= 1,
                    ;
                }
            }
            self.add_to_canvas(point_width, pt_idx, y, &mut cells);
            proof {
                let taken = data_points@.take(pt_idx as int + 1);
                assert(taken.drop_last() =~= data_points@.take(pt_idx as int));
                assert(taken.last() == data_points@[pt_idx as int]);
            }
            pt_idx = pt_idx + 1;
        }
        proof {
            assert(data_points@.take(n as int) =~= data_points@);
        }
        cells
    }

    /// Receive a new maximum-temperature series: adopt a canvas height that
    /// covers the series' range (at least 10) and a width that covers the
    /// series (at least 10 points wide), then plot the series.
    pub fn message(
        &mut self,
        message: &GraphComponentMessage,
        state: &mut GraphComponentState,
    ) -> (cells: Vec<CanvasCell>)
        requires
            message.max_temp_points@.len() > 0,
            message.max_temp_points@.len() <= u16::MAX,
            (if message.max_temp_points@.len() < 10 {
                10int
            } else {
                message.max_temp_points@.len() as int
            }) * old(state).point_width as int <= u16::MAX as int,
        ensures
            final(state).title == old(state).title,
            final(state).point_width == old(state).point_width,
            final(state).data_points == old(state).data_points,
            final(state).height == ({
                let range = max_of(message.max_temp_points@) - min_of(message.max_temp_points@);
                if range < 10 {
                    10int
                } else {
                    range
                }
            }),
            final(state).width == (if message.max_temp_points@.len() < 10 {
                10int
            } else {
                message.max_temp_points@.len() as int
            }) * old(state).point_width as int,
            cells@ == graph_cells(
                message.max_temp_points@,
                old(state).point_width,
                max_of(message.max_temp_points@),
            ),
    {
        let points = &message.max_temp_points;
        let n = points.len();
        let mut min: u16 = points[0];
        let mut max: u16 = points[0];
        let mut i: usize = 1;
        while i < n
            invariant
                1 <= i <= n,
                n == points@.len(),
                min == min_of(points@.take(i as int)),
                max == max_of(points@.take(i as int)),
                forall|j: int| 0 <= j < i ==> min <= #[trigger] points@[j] <= max,
            decreases n - i,
        {
            let value = points[i];
            proof {
                let taken = points@.take(i as int + 1);
                assert(taken.drop_last() =~= points@.take(i as int));
                assert(taken.last() == points@[i as int]);
            }
            if value < min {
                min = value;
            }
            if value > max {
                max = value;
            }
            i = i + 1;
        }
        proof {
            assert(points@.take(n as int) =~= points@);
        }

        let range = if max - min < 10 {
            10
        } else {
            max - min
        };
        state.height = range;

        let point_width = state.point_width;
        let width = (if n < 10 {
            10u16
        } else {
            n as u16
        }) * point_width;
        state.width = width;

        proof {
            if point_width > 0 {
                vstd::arithmetic::mul::lemma_mul_inequality(
                    n as int,
                    if n < 10 {
                        10int
                    } else {
                        n as int
                    },
                    point_width as int,
                );
            }
        }
        self.populate_graph(point_width, points, min, max)
    }
}

} // verus!
