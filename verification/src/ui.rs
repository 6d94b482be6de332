//! The frame composer: from the navigation state and the terminal's area to
//! the description of the frame to draw.
//!
//! The terminal is cut into rows by the layout solver of `ratatui`. What the
//! solver decides is the top and the height of each row; everything else on
//! the screen is decided here.

use vstd::prelude::*;
use vstd::string::StringExecFns;
use ratatui::layout::Constraint;
use ratatui::layout::Direction;
use ratatui::layout::Layout;
use ratatui::layout::Rect;
use crate::app::App;
use crate::app::AppView;
use crate::app::CurrentTab;
use crate::data::BenchmarkResult;
use crate::data::BenchmarkView;
use crate::data::HeapStep;
use crate::data::HeapStepView;
use crate::data::views;
use crate::frame::Align;
use crate::frame::Area;
use crate::frame::Bar;
use crate::frame::BarChart;
use crate::frame::BarChartView;
use crate::frame::BarView;
use crate::frame::BlockBox;
use crate::frame::BlockBoxView;
use crate::frame::Content;
use crate::frame::Paint;
use crate::frame::Panel;
use crate::frame::PanelView;
use crate::frame::Screen;
use crate::frame::Segment;
use crate::frame::SegmentView;
use crate::frame::Shade;
use crate::frame::Statistics;
use crate::frame::StatisticsView;
use crate::frame::TabBar;
use crate::frame::TabBarView;
use crate::frame::Visualizer;
use crate::frame::VisualizerView;
use crate::memory_map::BlockSpan;
use crate::memory_map::layout_blocks;
use crate::memory_map::spans_of;
use crate::memory_map::total_size;
use crate::text::decimal;
use crate::text::push_decimal;

verus! {

/// Rows between the top of the map area and the boxes of the blocks.
pub const MAP_TOP_MARGIN: u16 = 2;

/// Rows that the box of a block takes.
pub const BOX_HEIGHT: u16 = 5;

/// Rows between the top of a box and its label.
pub const LABEL_TOP_MARGIN: u16 = 2;

/// Rows of a fixed panel: one line of text inside a border.
pub const PANEL_HEIGHT: u16 = 3;

/// Columns per bar in the charts.
pub const BAR_WIDTH: u16 = 10;

/// Columns between two bars in the charts.
pub const BAR_GAP: u16 = 5;

/// What is asked of the height of one row when an area is cut into rows.
#[derive(Debug, Clone, Copy, PartialEq, Eq, Structural)]
pub enum RowRule {
    /// Exactly this many rows.
    Length(u16),
    /// At least this many rows; the row grows into what is left.
    Min(u16),
    /// This many hundredths of the area's rows.
    Percentage(u16),
}

/// Whether `inner` spans the same columns as `outer`.
pub open spec fn same_columns(inner: Area, outer: Area) -> bool {
    inner.x == outer.x && inner.width == outer.width
}

/// Cuts `area` into rows, one for each rule, with
/// `ratatui::layout::Layout::split` on a vertical layout without margin.
///
/// Trusted: the call returns one rectangle for each rule, and each has the
/// left edge and the width of `area`. Where the rows begin and how high they
/// are is the solver's decision; nothing is claimed of it.
#[verifier::external_body]
fn split_rows(area: Area, rules: &Vec<RowRule>) -> (rows: Vec<Area>)
    ensures
        rows@.len() == rules@.len(),
        forall|i: int| 0 <= i < rows@.len() ==> same_columns(#[trigger] rows@[i], area),
{
    let constraints = rules.iter().map(
        |rule|
            match *rule {
                RowRule::Length(rows) => Constraint::Length(rows),
                RowRule::Min(rows) => Constraint::Min(rows),
                RowRule::Percentage(share) => Constraint::Percentage(share),
            },
    );
    let layout = Layout::default().direction(Direction::Vertical).constraints(constraints);
    let rect = Rect { x: area.x, y: area.y, width: area.width, height: area.height };
    layout.split(rect).iter().map(
        |row| Area { x: row.x, y: row.y, width: row.width, height: row.height },
    ).collect()
}

/// Position of a view's tab in the tab bar.
pub open spec fn tab_index(tab: CurrentTab) -> nat {
    match tab {
        CurrentTab::Visualizer => 0,
        CurrentTab::Statistics => 1,
    }
}

/// The paint of the selected tab: bold yellow text.
pub open spec fn selected_tab_paint() -> Paint {
    Paint { foreground: Some(Shade::Yellow), background: None, bold: true }
}

/// The tab bar in `area` with the tab of `tab` selected.
pub open spec fn tab_bar_view(tab: CurrentTab, area: Area) -> TabBarView {
    TabBarView {
        area,
        title: "MemFlex Viz"@,
        titles: seq!["Visualizer"@, "Statistics"@],
        selected: tab_index(tab),
        highlight: selected_tab_paint(),
    }
}

/// The keys that the footer names in the view `tab`.
pub open spec fn footer_text(tab: CurrentTab) -> Seq<char> {
    match tab {
        CurrentTab::Visualizer => "Controls: [n] Next Step | [p] Prev Step | [TAB] Switch View | [q] Quit"@,
        CurrentTab::Statistics => "Controls: [TAB] Switch View | [q] Quit"@,
    }
}

/// A panel with a border titled `title` around the single plain run `text`.
pub open spec fn text_panel_view(
    area: Area,
    title: Seq<char>,
    text: Seq<char>,
    paint: Paint,
    align: Align,
) -> PanelView {
    PanelView {
        area,
        title: Some(title),
        segments: seq![SegmentView { text, paint: Paint::spec_plain() }],
        paint,
        align,
    }
}

/// The footer in `area` for the view `tab`.
pub open spec fn footer_view(tab: CurrentTab, area: Area) -> PanelView {
    text_panel_view(area, "Status"@, footer_text(tab), Paint::spec_plain(), Align::Center)
}

/// The line that names a step: strategy, ordinal, operation and highlighted
/// address.
pub open spec fn header_text(step: HeapStepView) -> Seq<char> {
    "Algorithm: "@ + step.algo + " | Step: "@ + decimal(step.step) + " | Op: "@ + step.op
        + " | Highlight: "@ + step.highlight
}

/// The paint of the header: cyan text.
pub open spec fn header_paint() -> Paint {
    Paint { foreground: Some(Shade::Cyan), background: None, bold: false }
}

/// The header of `step` in `area`.
pub open spec fn header_view(step: HeapStepView, area: Area) -> PanelView {
    text_panel_view(area, "Current Operation"@, header_text(step), header_paint(), Align::Left)
}

/// The colour of text on a block: white where the block is highlighted,
/// black where it is not.
pub open spec fn text_shade(highlighted: bool) -> Shade {
    if highlighted {
        Shade::White
    } else {
        Shade::Black
    }
}

/// The paint of a block's box: green where the block is free and red where
/// it is used, whether highlighted or not; the text on it bold and white
/// where the block is highlighted, black where it is not.
pub open spec fn block_paint(is_free: bool, highlighted: bool) -> Paint {
    Paint {
        foreground: Some(text_shade(highlighted)),
        background: Some(
            if is_free {
                Shade::Green
            } else {
                Shade::Red
            },
        ),
        bold: highlighted,
    }
}

/// The paint of a block's label.
pub open spec fn label_paint(highlighted: bool) -> Paint {
    Paint { foreground: Some(text_shade(highlighted)), background: None, bold: false }
}

/// Where the box of `span` is drawn in the map area `map`.
pub open spec fn box_area(map: Area, span: BlockSpan) -> Area {
    Area::spec_new(
        map.x.saturating_add(span.offset),
        map.y.saturating_add(MAP_TOP_MARGIN),
        span.width,
        BOX_HEIGHT,
    )
}

/// Where the label of `span` is drawn: one row, inside the left and right
/// border of the box.
pub open spec fn label_area(map: Area, span: BlockSpan) -> Area {
    Area::spec_new(
        map.x.saturating_add(span.offset).saturating_add(1),
        map.y.saturating_add(MAP_TOP_MARGIN).saturating_add(LABEL_TOP_MARGIN),
        span.width.saturating_sub(2),
        1,
    )
}

/// The label of a block of `size` drawn at `span`: the size in decimal,
/// centred.
pub open spec fn label_view(map: Area, span: BlockSpan, size: nat) -> PanelView {
    PanelView {
        area: label_area(map, span),
        title: None,
        segments: seq![SegmentView { text: decimal(size), paint: Paint::spec_plain() }],
        paint: label_paint(span.highlighted),
        align: Align::Center,
    }
}

/// The box of a block of `size` drawn at `span`.
pub open spec fn block_box_view(map: Area, span: BlockSpan, size: nat) -> BlockBoxView {
    BlockBoxView {
        area: box_area(map, span),
        paint: block_paint(span.is_free, span.highlighted),
        label: if span.labeled {
            Some(label_view(map, span, size))
        } else {
            None
        },
    }
}

/// The boxes of the blocks of `step` that are drawn in the map area `map`.
pub open spec fn boxes_view(step: HeapStepView, map: Area) -> Seq<BlockBoxView> {
    let spans = spans_of(step.blocks, step.highlight, map.width as nat);
    Seq::new(spans.len(), |i: int| block_box_view(map, spans[i], step.blocks[i].size))
}

/// The end of the legend: the sum of the sizes and the number of blocks.
pub open spec fn totals_text(total: nat, count: nat) -> Seq<char> {
    " | Total Size: "@ + decimal(total) + " bytes | Blocks: "@ + decimal(count)
}

/// The runs of the legend for blocks of `total` size and `count` in number.
pub open spec fn legend_segments(total: nat, count: nat) -> Seq<SegmentView> {
    seq![
        SegmentView { text: " Used (Red) "@, paint: block_paint(false, false) },
        SegmentView { text: " "@, paint: Paint::spec_plain() },
        SegmentView { text: " Free (Green) "@, paint: block_paint(true, false) },
        SegmentView { text: " "@, paint: Paint::spec_plain() },
        SegmentView {
            text: " Highlighted (Bold) "@,
            paint: Paint { foreground: None, background: None, bold: true },
        },
        SegmentView { text: totals_text(total, count), paint: Paint::spec_plain() },
    ]
}

/// The legend in `area` for blocks of `total` size and `count` in number.
pub open spec fn legend_view(total: nat, count: nat, area: Area) -> PanelView {
    PanelView {
        area,
        title: Some("Legend"@),
        segments: legend_segments(total, count),
        paint: Paint::spec_plain(),
        align: Align::Center,
    }
}

/// The visualizer view of `step` with its header, map and legend in the
/// areas given.
pub open spec fn visualizer_view(
    step: HeapStepView,
    header_area: Area,
    map_area: Area,
    legend_area: Area,
) -> VisualizerView {
    VisualizerView {
        header: header_view(step, header_area),
        map_area,
        boxes: boxes_view(step, map_area),
        legend: legend_view(total_size(step.blocks), step.blocks.len(), legend_area),
    }
}

/// The paint of the values written on the bars: black on white.
pub open spec fn bar_value_paint() -> Paint {
    Paint { foreground: Some(Shade::Black), background: Some(Shade::White), bold: false }
}

/// One bar for each record, with its elapsed milliseconds.
pub open spec fn time_bars(results: Seq<BenchmarkView>) -> Seq<BarView> {
    Seq::new(results.len(), |i: int| BarView { label: results[i].name, value: results[i].time_ms })
}

/// One bar for each record, with its number of blocks.
pub open spec fn block_count_bars(results: Seq<BenchmarkView>) -> Seq<BarView> {
    Seq::new(
        results.len(),
        |i: int| BarView { label: results[i].name, value: results[i].total_blocks },
    )
}

/// A chart of `bars` in `area`, its text in `shade`.
pub open spec fn chart_view(area: Area, title: Seq<char>, bars: Seq<BarView>, shade: Shade)
    -> BarChartView {
    BarChartView {
        area,
        title,
        bars,
        bar_width: BAR_WIDTH as nat,
        bar_gap: BAR_GAP as nat,
        value_paint: bar_value_paint(),
        paint: Paint { foreground: Some(shade), background: None, bold: false },
    }
}

/// The statistics view of `results`: elapsed time in `top`, block counts in
/// `bottom`, the records in input order.
pub open spec fn statistics_view(results: Seq<BenchmarkView>, top: Area, bottom: Area)
    -> StatisticsView {
    StatisticsView {
        time: chart_view(top, "Execution Time (ms)"@, time_bars(results), Shade::Cyan),
        fragmentation: chart_view(
            bottom,
            "Total Block Count (Fragmentation)"@,
            block_count_bars(results),
            Shade::Magenta,
        ),
    }
}

/// A panel with a border titled `title` around the single plain run `text`.
fn text_panel(area: Area, title: &str, text: String, paint: Paint, align: Align) -> (panel: Panel)
    ensures
        panel@ == text_panel_view(area, title@, text@, paint, align),
        panel.area == area,
{
    let mut segments: Vec<Segment> = Vec::new();
    segments.push(Segment { text, paint: Paint::plain() });
    let panel = Panel { area, title: Some(String::from_str(title)), segments, paint, align };
    proof {
        assert(panel@.segments =~= seq![SegmentView { text: text@, paint: Paint::spec_plain() }]);
    }
    panel
}

/// The tab bar in `area` with the tab of `tab` selected.
pub fn tab_bar(tab: CurrentTab, area: Area) -> (tabs: TabBar)
    ensures
        tabs@ == tab_bar_view(tab, area),
        tabs.area == area,
{
    let mut titles: Vec<String> = Vec::new();
    titles.push(String::from_str("Visualizer"));
    titles.push(String::from_str("Statistics"));
    let selected: usize = match tab {
        CurrentTab::Visualizer => 0,
        CurrentTab::Statistics => 1,
    };
    let tabs = TabBar {
        area,
        title: String::from_str("MemFlex Viz"),
        titles,
        selected,
        highlight: Paint { foreground: Some(Shade::Yellow), background: None, bold: true },
    };
    proof {
        assert(tabs@.titles =~= seq!["Visualizer"@, "Statistics"@]);
    }
    tabs
}

/// The footer in `area` for the view `tab`: the keys that act in that view.
pub fn footer(tab: CurrentTab, area: Area) -> (panel: Panel)
    ensures
        panel@ == footer_view(tab, area),
        panel.area == area,
{
    let text = match tab {
        CurrentTab::Visualizer => String::from_str(
            "Controls: [n] Next Step | [p] Prev Step | [TAB] Switch View | [q] Quit",
        ),
        CurrentTab::Statistics => String::from_str("Controls: [TAB] Switch View | [q] Quit"),
    };
    text_panel(area, "Status", text, Paint::plain(), Align::Center)
}

/// The header of `step` in `area`.
pub fn header(step: &HeapStep, area: Area) -> (panel: Panel)
    ensures
        panel@ == header_view(step@, area),
        panel.area == area,
{
    let mut text = String::from_str("Algorithm: ");
    text.append(step.algo.as_str());
    text.append(" | Step: ");
    push_decimal(&mut text, step.step as u128);
    text.append(" | Op: ");
    text.append(step.op.as_str());
    text.append(" | Highlight: ");
    text.append(step.highlight.as_str());
    text_panel(
        area,
        "Current Operation",
        text,
        Paint { foreground: Some(Shade::Cyan), background: None, bold: false },
        Align::Left,
    )
}

/// The paint of a block's box.
pub fn paint_of_block(is_free: bool, highlighted: bool) -> (paint: Paint)
    ensures
        paint == block_paint(is_free, highlighted),
{
    Paint {
        foreground: Some(
            if highlighted {
                Shade::White
            } else {
                Shade::Black
            },
        ),
        background: Some(
            if is_free {
                Shade::Green
            } else {
                Shade::Red
            },
        ),
        bold: highlighted,
    }
}

/// The box of a block of `size` that the layout placed at `span`, in the map
/// area `map`.
pub fn block_box(map: Area, span: BlockSpan, size: usize) -> (drawn: BlockBox)
    ensures
        drawn@ == block_box_view(map, span, size as nat),
{
    let left = map.x.saturating_add(span.offset);
    let top = map.y.saturating_add(MAP_TOP_MARGIN);
    let label = if span.labeled {
        let mut segments: Vec<Segment> = Vec::new();
        let mut text = String::new();
        push_decimal(&mut text, size as u128);
        segments.push(Segment { text, paint: Paint::plain() });
        let panel = Panel {
            area: Area::new(
                left.saturating_add(1),
                top.saturating_add(LABEL_TOP_MARGIN),
                span.width.saturating_sub(2),
                1,
            ),
            title: None,
            segments,
            paint: Paint {
                foreground: Some(
                    if span.highlighted {
                        Shade::White
                    } else {
                        Shade::Black
                    },
                ),
                background: None,
                bold: false,
            },
            align: Align::Center,
        };
        proof {
            assert(text@ =~= decimal(size as nat));
            assert(panel@.segments =~= label_view(map, span, size as nat).segments);
        }
        Some(panel)
    } else {
        None
    };
    BlockBox {
        area: Area::new(left, top, span.width, BOX_HEIGHT),
        paint: paint_of_block(span.is_free, span.highlighted),
        label,
    }
}

/// The legend in `area` for blocks of `total` size and `count` in number.
pub fn legend(total: u128, count: usize, area: Area) -> (panel: Panel)
    ensures
        panel@ == legend_view(total as nat, count as nat, area),
        panel.area == area,
{
    let mut totals = String::from_str(" | Total Size: ");
    push_decimal(&mut totals, total);
    totals.append(" bytes | Blocks: ");
    push_decimal(&mut totals, count as u128);
    let mut segments: Vec<Segment> = Vec::new();
    segments.push(
        Segment { text: String::from_str(" Used (Red) "), paint: paint_of_block(false, false) },
    );
    segments.push(Segment { text: String::from_str(" "), paint: Paint::plain() });
    segments.push(
        Segment { text: String::from_str(" Free (Green) "), paint: paint_of_block(true, false) },
    );
    segments.push(Segment { text: String::from_str(" "), paint: Paint::plain() });
    segments.push(
        Segment {
            text: String::from_str(" Highlighted (Bold) "),
            paint: Paint { foreground: None, background: None, bold: true },
        },
    );
    segments.push(Segment { text: totals, paint: Paint::plain() });
    let panel = Panel {
        area,
        title: Some(String::from_str("Legend")),
        segments,
        paint: Paint::plain(),
        align: Align::Center,
    };
    proof {
        assert(panel@.segments =~= legend_segments(total as nat, count as nat));
    }
    panel
}

/// The visualizer view of `step`: its header in `header_area`, its blocks
/// laid out over the columns of `map_area`, its legend in `legend_area`.
pub fn compose_visualizer(step: &HeapStep, header_area: Area, map_area: Area, legend_area: Area)
    -> (visualizer: Visualizer)
    ensures
        visualizer@ == visualizer_view(step@, header_area, map_area, legend_area),
        visualizer.header.area == header_area,
        visualizer.map_area == map_area,
        visualizer.legend.area == legend_area,
        visualizer.boxes@.len() <= step.blocks@.len(),
        visualizer.boxes@.len() <= map_area.width,
{
    let layout = layout_blocks(&step.blocks, &step.highlight, map_area.width);
    let mut boxes: Vec<BlockBox> = Vec::new();
    let mut i: usize = 0;
    while i < layout.spans.len()
        invariant
            i <= layout.spans@.len(),
            layout.spans@.len() <= step.blocks@.len(),
            layout.spans@ == spans_of(step@.blocks, step@.highlight, map_area.width as nat),
            boxes@.len() == i,
            forall|j: int|
                0 <= j < i ==> (#[trigger] boxes@[j])@ == block_box_view(
                    map_area,
                    layout.spans@[j],
                    step@.blocks[j].size,
                ),
        decreases layout.spans@.len() - i,
    {
        boxes.push(block_box(map_area, layout.spans[i], step.blocks[i].size));
        i = i + 1;
    }
    let visualizer = Visualizer {
        header: header(step, header_area),
        map_area,
        boxes,
        legend: legend(layout.total_size, layout.block_count, legend_area),
    };
    proof {
        assert(visualizer@.boxes =~= boxes_view(step@, map_area));
    }
    visualizer
}

/// A chart of `bars` in `area`, its text in `shade`.
fn chart(area: Area, title: &str, bars: Vec<Bar>, shade: Shade) -> (drawn: BarChart)
    ensures
        drawn@ == chart_view(area, title@, views(bars@), shade),
        drawn.area == area,
{
    BarChart {
        area,
        title: String::from_str(title),
        bars,
        bar_width: BAR_WIDTH,
        bar_gap: BAR_GAP,
        value_paint: Paint {
            foreground: Some(Shade::Black),
            background: Some(Shade::White),
            bold: false,
        },
        paint: Paint { foreground: Some(shade), background: None, bold: false },
    }
}

/// The statistics view of `results`: a chart of elapsed milliseconds in
/// `top` and a chart of block counts in `bottom`, one bar for each record in
/// input order.
pub fn compose_statistics(results: &Vec<BenchmarkResult>, top: Area, bottom: Area) -> (statistics:
    Statistics)
    ensures
        statistics@ == statistics_view(views(results@), top, bottom),
        statistics.time.area == top,
        statistics.fragmentation.area == bottom,
{
    let mut times: Vec<Bar> = Vec::new();
    let mut counts: Vec<Bar> = Vec::new();
    let mut i: usize = 0;
    while i < results.len()
        invariant
            i <= results@.len(),
            times@.len() == i,
            counts@.len() == i,
            forall|j: int|
                0 <= j < i ==> (#[trigger] times@[j])@ == (BarView {
                    label: results@[j].name@,
                    value: results@[j].time_ms as nat,
                }),
            forall|j: int|
                0 <= j < i ==> (#[trigger] counts@[j])@ == (BarView {
                    label: results@[j].name@,
                    value: results@[j].total_blocks as nat,
                }),
        decreases results@.len() - i,
    {
        let record = &results[i];
        times.push(Bar { label: record.name.clone(), value: record.time_ms });
        counts.push(Bar { label: record.name.clone(), value: record.total_blocks });
        i = i + 1;
    }
    proof {
        assert(views(times@) =~= time_bars(views(results@)));
        assert(views(counts@) =~= block_count_bars(views(results@)));
    }
    Statistics {
        time: chart(top, "Execution Time (ms)", times, Shade::Cyan),
        fragmentation: chart(bottom, "Total Block Count (Fragmentation)", counts, Shade::Magenta),
    }
}

/// Whether `drawn` is the visualizer view of `app` in `area`: nothing where
/// the current index points at no step, else the view of the current step
/// with its three parts in rows that span the columns of `area`.
pub open spec fn is_visualizer_of(drawn: Option<Visualizer>, app: AppView, area: Area) -> bool {
    match drawn {
        None => app.current_step_index >= app.steps.len(),
        Some(visualizer) => {
            &&& app.current_step_index < app.steps.len()
            &&& visualizer@ == visualizer_view(
                app.steps[app.current_step_index as int],
                visualizer.header.area,
                visualizer.map_area,
                visualizer.legend.area,
            )
            &&& same_columns(visualizer.header.area, area)
            &&& same_columns(visualizer.map_area, area)
            &&& same_columns(visualizer.legend.area, area)
        },
    }
}

/// Whether `drawn` is the statistics view of `app` in `area`: the two charts
/// of the benchmark records, in rows that span the columns of `area`.
pub open spec fn is_statistics_of(drawn: Statistics, app: AppView, area: Area) -> bool {
    &&& drawn@ == statistics_view(app.benchmark_results, drawn.time.area, drawn.fragmentation.area)
    &&& same_columns(drawn.time.area, area)
    &&& same_columns(drawn.fragmentation.area, area)
}

/// Whether `screen` is the frame of `app` on a terminal of `area`: the tab
/// bar, the footer, and between them the current view in the content area,
/// each in a row that spans the columns of `area`.
pub open spec fn is_screen_of(screen: Screen, app: AppView, area: Area) -> bool {
    &&& screen.tabs@ == tab_bar_view(app.current_tab, screen.tabs.area)
    &&& same_columns(screen.tabs.area, area)
    &&& screen.footer@ == footer_view(app.current_tab, screen.footer.area)
    &&& same_columns(screen.footer.area, area)
    &&& same_columns(screen.content_area, area)
    &&& match screen.content {
        Content::Visualizer(drawn) => {
            &&& app.current_tab == CurrentTab::Visualizer
            &&& is_visualizer_of(drawn, app, screen.content_area)
        },
        Content::Statistics(drawn) => {
            &&& app.current_tab == CurrentTab::Statistics
            &&& is_statistics_of(drawn, app, screen.content_area)
        },
    }
}

/// The rules by which the screen, and the visualizer inside it, are cut into
/// rows: a fixed panel, the rest, a fixed panel.
pub fn panel_rules() -> (rules: Vec<RowRule>)
    ensures
        rules@ == seq![
            RowRule::Length(PANEL_HEIGHT),
            RowRule::Min(1),
            RowRule::Length(PANEL_HEIGHT),
        ],
{
    let mut rules: Vec<RowRule> = Vec::new();
    rules.push(RowRule::Length(PANEL_HEIGHT));
    rules.push(RowRule::Min(1));
    rules.push(RowRule::Length(PANEL_HEIGHT));
    proof {
        assert(rules@ =~= seq![
            RowRule::Length(PANEL_HEIGHT),
            RowRule::Min(1),
            RowRule::Length(PANEL_HEIGHT),
        ]);
    }
    rules
}

/// The rules by which the statistics view is cut into two halves.
pub fn halves_rules() -> (rules: Vec<RowRule>)
    ensures
        rules@ == seq![RowRule::Percentage(50), RowRule::Percentage(50)],
{
    let mut rules: Vec<RowRule> = Vec::new();
    rules.push(RowRule::Percentage(50));
    rules.push(RowRule::Percentage(50));
    proof {
        assert(rules@ =~= seq![RowRule::Percentage(50), RowRule::Percentage(50)]);
    }
    rules
}

/// The visualizer view of the current step of `app` in `area`, or nothing
/// where the current index points at no step.
///
/// The area is cut into three rows for header, map and legend. Whatever rows
/// the solver gives, the view is that of [`compose_visualizer`] on them.
pub fn render_visualizer(app: &App, area: Area) -> (drawn: Option<Visualizer>)
    ensures
        is_visualizer_of(drawn, app@, area),
{
    if app.current_step_index >= app.steps.len() {
        return None;
    }
    let step = app.current_step();
    let rows = split_rows(area, &panel_rules());
    Some(compose_visualizer(step, rows[0], rows[1], rows[2]))
}

/// The statistics view of `app` in `area`.
///
/// The area is cut into two halves. Whatever rows the solver gives, the view
/// is that of [`compose_statistics`] on them.
pub fn render_statistics(app: &App, area: Area) -> (drawn: Statistics)
    ensures
        is_statistics_of(drawn, app@, area),
{
    let rows = split_rows(area, &halves_rules());
    compose_statistics(&app.benchmark_results, rows[0], rows[1])
}

/// The frame of `app` on a terminal of `area`.
///
/// The area is cut into three rows: the tab bar, the content of the current
/// view, and the footer.
pub fn ui(app: &App, area: Area) -> (screen: Screen)
    ensures
        is_screen_of(screen, app@, area),
{
    let rows = split_rows(area, &panel_rules());
    let content = match app.current_tab {
        CurrentTab::Visualizer => Content::Visualizer(render_visualizer(app, rows[1])),
        CurrentTab::Statistics => Content::Statistics(render_statistics(app, rows[1])),
    };
    Screen {
        tabs: tab_bar(app.current_tab, rows[0]),
        content_area: rows[1],
        content,
        footer: footer(app.current_tab, rows[2]),
    }
}

} // verus!
