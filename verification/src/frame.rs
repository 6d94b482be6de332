//! What a frame is made of: areas of the terminal, paints, and the widgets
//! that are drawn into the areas. A frame is described here as plain data;
//! putting it on a terminal is left to the caller.

use vstd::prelude::*;
use crate::data::views;

verus! {

/// A rectangle of terminal cells.
#[derive(Debug, Clone, Copy, PartialEq, Eq, Structural)]
pub struct Area {
    /// Column of the left edge.
    pub x: u16,
    /// Row of the top edge.
    pub y: u16,
    /// Number of columns.
    pub width: u16,
    /// Number of rows.
    pub height: u16,
}

impl Area {
    /// The area at `(x, y)` of the given size, cut so that neither its right
    /// nor its bottom edge lies beyond the last coordinate.
    pub open spec fn spec_new(x: u16, y: u16, width: u16, height: u16) -> Area {
        Area {
            x,
            y,
            width: if x + width > u16::MAX {
                (u16::MAX - x) as u16
            } else {
                width
            },
            height: if y + height > u16::MAX {
                (u16::MAX - y) as u16
            } else {
                height
            },
        }
    }

    /// Whether the right and the bottom edge lie within the coordinates.
    pub open spec fn wf(&self) -> bool {
        self.x + self.width <= u16::MAX && self.y + self.height <= u16::MAX
    }

    /// The area at `(x, y)` of the given size, cut so that neither its right
    /// nor its bottom edge lies beyond the last coordinate.
    #[verifier::when_used_as_spec(spec_new)]
    pub fn new(x: u16, y: u16, width: u16, height: u16) -> (area: Area)
        ensures
            area == Area::spec_new(x, y, width, height),
            area.wf(),
            area.x == x,
            area.y == y,
            area.width <= width,
            area.height <= height,
    {
        let max_width = u16::MAX - x;
        let max_height = u16::MAX - y;
        Area {
            x,
            y,
            width: if width > max_width {
                max_width
            } else {
                width
            },
            height: if height > max_height {
                max_height
            } else {
                height
            },
        }
    }
}

/// The colours that the viewer draws with.
#[derive(Debug, Clone, Copy, PartialEq, Eq, Structural)]
pub enum Shade {
    Black,
    Red,
    Green,
    Yellow,
    Magenta,
    Cyan,
    White,
}

/// How text or a surface is painted. `None` leaves a colour as it is.
#[derive(Debug, Clone, Copy, PartialEq, Eq)]
pub struct Paint {
    /// Colour of the text.
    pub foreground: Option<Shade>,
    /// Colour of the surface.
    pub background: Option<Shade>,
    /// Whether the text is bold.
    pub bold: bool,
}

impl Paint {
    /// The paint that changes nothing.
    pub open spec fn spec_plain() -> Paint {
        Paint { foreground: None, background: None, bold: false }
    }

    /// The paint that changes nothing.
    #[verifier::when_used_as_spec(spec_plain)]
    pub fn plain() -> (paint: Paint)
        ensures
            paint == Paint::spec_plain(),
    {
        Paint { foreground: None, background: None, bold: false }
    }
}

/// How the text of a panel is aligned.
#[derive(Debug, Clone, Copy, PartialEq, Eq, Structural)]
pub enum Align {
    Left,
    Center,
}

/// A run of text in one paint.
#[derive(Debug, Clone, PartialEq, Eq)]
pub struct Segment {
    pub text: String,
    pub paint: Paint,
}

/// Mathematical model of a [`Segment`].
pub struct SegmentView {
    pub text: Seq<char>,
    pub paint: Paint,
}

impl View for Segment {
    type V = SegmentView;

    open spec fn view(&self) -> SegmentView {
        SegmentView { text: self.text@, paint: self.paint }
    }
}

/// One line of text in an area, inside a titled border where it has a title.
#[derive(Debug, Clone, PartialEq, Eq)]
pub struct Panel {
    /// Where the panel is drawn.
    pub area: Area,
    /// Title on the border; without one the panel has no border.
    pub title: Option<String>,
    /// The line, as runs of text.
    pub segments: Vec<Segment>,
    /// Paint of the whole panel, border included.
    pub paint: Paint,
    /// Alignment of the line.
    pub align: Align,
}

/// Mathematical model of a [`Panel`].
pub struct PanelView {
    pub area: Area,
    pub title: Option<Seq<char>>,
    pub segments: Seq<SegmentView>,
    pub paint: Paint,
    pub align: Align,
}

impl View for Panel {
    type V = PanelView;

    open spec fn view(&self) -> PanelView {
        PanelView {
            area: self.area,
            title: match self.title {
                Some(title) => Some(title@),
                None => None,
            },
            segments: views(self.segments@),
            paint: self.paint,
            align: self.align,
        }
    }
}

/// The row of tabs that names the views.
#[derive(Debug, Clone, PartialEq, Eq)]
pub struct TabBar {
    /// Where the tabs are drawn.
    pub area: Area,
    /// Title on the border.
    pub title: String,
    /// Names of the tabs, in order.
    pub titles: Vec<String>,
    /// Index of the selected tab.
    pub selected: usize,
    /// Paint of the selected tab.
    pub highlight: Paint,
}

/// Mathematical model of a [`TabBar`].
pub struct TabBarView {
    pub area: Area,
    pub title: Seq<char>,
    pub titles: Seq<Seq<char>>,
    pub selected: nat,
    pub highlight: Paint,
}

impl View for TabBar {
    type V = TabBarView;

    open spec fn view(&self) -> TabBarView {
        TabBarView {
            area: self.area,
            title: self.title@,
            titles: views(self.titles@),
            selected: self.selected as nat,
            highlight: self.highlight,
        }
    }
}

/// One memory block as it is drawn: a bordered box, with the block's size as
/// a label inside where the box is wide enough.
#[derive(Debug, Clone, PartialEq, Eq)]
pub struct BlockBox {
    /// Where the box is drawn.
    pub area: Area,
    /// Paint of the box.
    pub paint: Paint,
    /// The label, if the box carries one.
    pub label: Option<Panel>,
}

/// Mathematical model of a [`BlockBox`].
pub struct BlockBoxView {
    pub area: Area,
    pub paint: Paint,
    pub label: Option<PanelView>,
}

impl View for BlockBox {
    type V = BlockBoxView;

    open spec fn view(&self) -> BlockBoxView {
        BlockBoxView {
            area: self.area,
            paint: self.paint,
            label: match self.label {
                Some(label) => Some(label@),
                None => None,
            },
        }
    }
}

/// The visualizer view of one step.
#[derive(Debug, Clone, PartialEq, Eq)]
pub struct Visualizer {
    /// The line that names the step.
    pub header: Panel,
    /// The area that the memory map is laid out in.
    pub map_area: Area,
    /// The drawn blocks, left to right.
    pub boxes: Vec<BlockBox>,
    /// The legend with the totals.
    pub legend: Panel,
}

/// Mathematical model of a [`Visualizer`].
pub struct VisualizerView {
    pub header: PanelView,
    pub map_area: Area,
    pub boxes: Seq<BlockBoxView>,
    pub legend: PanelView,
}

impl View for Visualizer {
    type V = VisualizerView;

    open spec fn view(&self) -> VisualizerView {
        VisualizerView {
            header: self.header@,
            map_area: self.map_area,
            boxes: views(self.boxes@),
            legend: self.legend@,
        }
    }
}

/// One bar of a chart.
#[derive(Debug, Clone, PartialEq, Eq)]
pub struct Bar {
    pub label: String,
    pub value: u64,
}

/// Mathematical model of a [`Bar`].
pub struct BarView {
    pub label: Seq<char>,
    pub value: nat,
}

impl View for Bar {
    type V = BarView;

    open spec fn view(&self) -> BarView {
        BarView { label: self.label@, value: self.value as nat }
    }
}

/// A bar chart inside a titled border.
#[derive(Debug, Clone, PartialEq, Eq)]
pub struct BarChart {
    /// Where the chart is drawn.
    pub area: Area,
    /// Title on the border.
    pub title: String,
    /// The bars, left to right.
    pub bars: Vec<Bar>,
    /// Columns per bar.
    pub bar_width: u16,
    /// Columns between two bars.
    pub bar_gap: u16,
    /// Paint of the values written on the bars.
    pub value_paint: Paint,
    /// Paint of the chart.
    pub paint: Paint,
}

/// Mathematical model of a [`BarChart`].
pub struct BarChartView {
    pub area: Area,
    pub title: Seq<char>,
    pub bars: Seq<BarView>,
    pub bar_width: nat,
    pub bar_gap: nat,
    pub value_paint: Paint,
    pub paint: Paint,
}

impl View for BarChart {
    type V = BarChartView;

    open spec fn view(&self) -> BarChartView {
        BarChartView {
            area: self.area,
            title: self.title@,
            bars: views(self.bars@),
            bar_width: self.bar_width as nat,
            bar_gap: self.bar_gap as nat,
            value_paint: self.value_paint,
            paint: self.paint,
        }
    }
}

/// The statistics view: elapsed time above, block count below.
#[derive(Debug, Clone, PartialEq, Eq)]
pub struct Statistics {
    pub time: BarChart,
    pub fragmentation: BarChart,
}

/// Mathematical model of a [`Statistics`].
pub struct StatisticsView {
    pub time: BarChartView,
    pub fragmentation: BarChartView,
}

impl View for Statistics {
    type V = StatisticsView;

    open spec fn view(&self) -> StatisticsView {
        StatisticsView { time: self.time@, fragmentation: self.fragmentation@ }
    }
}

/// What fills the middle of the screen.
#[derive(Debug, Clone, PartialEq, Eq)]
pub enum Content {
    /// The visualizer view; `None` where there is no step to show.
    Visualizer(Option<Visualizer>),
    /// The statistics view.
    Statistics(Statistics),
}

/// Mathematical model of a [`Content`].
pub enum ContentView {
    Visualizer(Option<VisualizerView>),
    Statistics(StatisticsView),
}

impl View for Content {
    type V = ContentView;

    open spec fn view(&self) -> ContentView {
        match *self {
            Content::Visualizer(Some(visualizer)) => ContentView::Visualizer(Some(visualizer@)),
            Content::Visualizer(None) => ContentView::Visualizer(None),
            Content::Statistics(statistics) => ContentView::Statistics(statistics@),
        }
    }
}

/// One whole frame: tabs on top, the current view, a footer.
#[derive(Debug, Clone, PartialEq, Eq)]
pub struct Screen {
    /// The tab bar, in the top row.
    pub tabs: TabBar,
    /// The area between tab bar and footer.
    pub content_area: Area,
    /// What is drawn in that area.
    pub content: Content,
    /// The footer, in the bottom row.
    pub footer: Panel,
}

/// Mathematical model of a [`Screen`].
pub struct ScreenView {
    pub tabs: TabBarView,
    pub content_area: Area,
    pub content: ContentView,
    pub footer: PanelView,
}

impl View for Screen {
    type V = ScreenView;

    open spec fn view(&self) -> ScreenView {
        ScreenView {
            tabs: self.tabs@,
            content_area: self.content_area,
            content: self.content@,
            footer: self.footer@,
        }
    }
}

} // verus!
