use viz::app::App;
use viz::app::CurrentTab;
use viz::data::BenchmarkResult;
use viz::data::BlockState;
use viz::data::HeapStep;
use viz::frame::Align;
use viz::frame::Area;
use viz::frame::Bar;
use viz::frame::Content;
use viz::frame::Paint;
use viz::frame::Panel;
use viz::frame::Segment;
use viz::frame::Shade;
use viz::memory_map::BlockSpan;
use viz::ui::block_box;
use viz::ui::compose_statistics;
use viz::ui::compose_visualizer;
use viz::ui::footer;
use viz::ui::halves_rules;
use viz::ui::header;
use viz::ui::legend;
use viz::ui::paint_of_block;
use viz::ui::panel_rules;
use viz::ui::render_statistics;
use viz::ui::render_visualizer;
use viz::ui::tab_bar;
use viz::ui::ui;
use viz::ui::RowRule;

fn area(x: u16, y: u16, width: u16, height: u16) -> Area {
    Area { x, y, width, height }
}

fn plain() -> Paint {
    Paint { foreground: None, background: None, bold: false }
}

fn sample_step() -> HeapStep {
    HeapStep {
        step: 4,
        algo: "best_fit".to_string(),
        op: "alloc(32)".to_string(),
        highlight: "0x20".to_string(),
        blocks: vec![
            BlockState { addr: "0x00".to_string(), size: 32, is_free: false },
            BlockState { addr: "0x20".to_string(), size: 32, is_free: false },
            BlockState { addr: "0x40".to_string(), size: 8, is_free: true },
            BlockState { addr: "0x48".to_string(), size: 88, is_free: true },
        ],
    }
}

fn sample_results() -> Vec<BenchmarkResult> {
    vec![
        BenchmarkResult { name: "first_fit".to_string(), time_ms: 1500, total_blocks: 42 },
        BenchmarkResult { name: "best_fit".to_string(), time_ms: 2250, total_blocks: 17 },
    ]
}

#[test]
fn area_new_keeps_an_area_that_fits() {
    assert_eq!(Area::new(3, 4, 10, 5), area(3, 4, 10, 5));
    assert_eq!(Area::new(0, 0, 65535, 65535), area(0, 0, 65535, 65535));
}

#[test]
fn area_new_cuts_at_the_last_coordinate() {
    assert_eq!(Area::new(65530, 0, 10, 1), area(65530, 0, 5, 1));
    assert_eq!(Area::new(0, 65534, 1, 5), area(0, 65534, 1, 1));
    assert_eq!(Area::new(65535, 65535, 7, 7), area(65535, 65535, 0, 0));
}

#[test]
fn plain_paint_changes_nothing() {
    assert_eq!(Paint::plain(), plain());
}

#[test]
fn tab_bar_selects_the_tab_of_the_view() {
    let tabs = tab_bar(CurrentTab::Visualizer, area(0, 0, 80, 3));
    assert_eq!(tabs.area, area(0, 0, 80, 3));
    assert_eq!(tabs.title, "MemFlex Viz");
    assert_eq!(tabs.titles, vec!["Visualizer".to_string(), "Statistics".to_string()]);
    assert_eq!(tabs.selected, 0);
    assert_eq!(tabs.highlight, Paint { foreground: Some(Shade::Yellow), background: None, bold: true });
    let tabs = tab_bar(CurrentTab::Statistics, area(0, 0, 80, 3));
    assert_eq!(tabs.selected, 1);
}

#[test]
fn footer_names_the_keys_of_the_view() {
    let panel = footer(CurrentTab::Visualizer, area(0, 21, 80, 3));
    assert_eq!(
        panel,
        Panel {
            area: area(0, 21, 80, 3),
            title: Some("Status".to_string()),
            segments: vec![Segment {
                text: "Controls: [n] Next Step | [p] Prev Step | [TAB] Switch View | [q] Quit".to_string(),
                paint: plain(),
            }],
            paint: plain(),
            align: Align::Center,
        }
    );
    let panel = footer(CurrentTab::Statistics, area(0, 21, 80, 3));
    assert_eq!(panel.segments.len(), 1);
    assert_eq!(panel.segments[0].text, "Controls: [TAB] Switch View | [q] Quit");
}

#[test]
fn header_names_the_step() {
    let panel = header(&sample_step(), area(1, 2, 60, 3));
    assert_eq!(
        panel,
        Panel {
            area: area(1, 2, 60, 3),
            title: Some("Current Operation".to_string()),
            segments: vec![Segment {
                text: "Algorithm: best_fit | Step: 4 | Op: alloc(32) | Highlight: 0x20".to_string(),
                paint: plain(),
            }],
            paint: Paint { foreground: Some(Shade::Cyan), background: None, bold: false },
            align: Align::Left,
        }
    );
}

#[test]
fn legend_sums_up_the_step() {
    let panel = legend(160, 4, area(0, 18, 80, 3));
    assert_eq!(panel.area, area(0, 18, 80, 3));
    assert_eq!(panel.title, Some("Legend".to_string()));
    assert_eq!(panel.align, Align::Center);
    assert_eq!(panel.paint, plain());
    assert_eq!(
        panel.segments,
        vec![
            Segment {
                text: " Used (Red) ".to_string(),
                paint: Paint { foreground: Some(Shade::Black), background: Some(Shade::Red), bold: false },
            },
            Segment { text: " ".to_string(), paint: plain() },
            Segment {
                text: " Free (Green) ".to_string(),
                paint: Paint { foreground: Some(Shade::Black), background: Some(Shade::Green), bold: false },
            },
            Segment { text: " ".to_string(), paint: plain() },
            Segment {
                text: " Highlighted (Bold) ".to_string(),
                paint: Paint { foreground: None, background: None, bold: true },
            },
            Segment { text: " | Total Size: 160 bytes | Blocks: 4".to_string(), paint: plain() },
        ]
    );
}

#[test]
fn block_paint_tells_free_from_used_and_marks_the_highlight() {
    assert_eq!(
        paint_of_block(false, false),
        Paint { foreground: Some(Shade::Black), background: Some(Shade::Red), bold: false }
    );
    assert_eq!(
        paint_of_block(true, false),
        Paint { foreground: Some(Shade::Black), background: Some(Shade::Green), bold: false }
    );
    assert_eq!(
        paint_of_block(false, true),
        Paint { foreground: Some(Shade::White), background: Some(Shade::Red), bold: true }
    );
    assert_eq!(
        paint_of_block(true, true),
        Paint { foreground: Some(Shade::White), background: Some(Shade::Green), bold: true }
    );
}

#[test]
fn a_narrow_box_has_no_label() {
    let span = BlockSpan { offset: 7, width: 3, is_free: true, highlighted: false, labeled: false };
    let drawn = block_box(area(2, 6, 40, 12), span, 4096);
    assert_eq!(drawn.area, area(9, 8, 3, 5));
    assert_eq!(drawn.paint, paint_of_block(true, false));
    assert_eq!(drawn.label, None);
}

#[test]
fn a_wide_box_has_its_size_as_a_centred_label() {
    let span = BlockSpan { offset: 7, width: 5, is_free: false, highlighted: true, labeled: true };
    let drawn = block_box(area(2, 6, 40, 12), span, 4096);
    assert_eq!(drawn.area, area(9, 8, 5, 5));
    assert_eq!(drawn.paint, paint_of_block(false, true));
    assert_eq!(
        drawn.label,
        Some(Panel {
            area: area(10, 10, 3, 1),
            title: None,
            segments: vec![Segment { text: "4096".to_string(), paint: plain() }],
            paint: Paint { foreground: Some(Shade::White), background: None, bold: false },
            align: Align::Center,
        })
    );
}

#[test]
fn a_label_on_a_plain_block_is_black() {
    let span = BlockSpan { offset: 0, width: 9, is_free: true, highlighted: false, labeled: true };
    let drawn = block_box(area(0, 0, 40, 12), span, 7);
    let label = drawn.label.unwrap();
    assert_eq!(label.paint, Paint { foreground: Some(Shade::Black), background: None, bold: false });
    assert_eq!(label.area, area(1, 4, 7, 1));
    assert_eq!(label.segments[0].text, "7");
}

#[test]
fn a_box_at_the_last_coordinates_is_cut() {
    let span = BlockSpan { offset: 10, width: 6, is_free: true, highlighted: false, labeled: true };
    let drawn = block_box(area(65530, 65534, 20, 12), span, 1);
    assert_eq!(drawn.area, area(65535, 65535, 0, 0));
    assert_eq!(drawn.label.unwrap().area, area(65535, 65535, 0, 0));
}

#[test]
fn compose_visualizer_lays_the_blocks_out_in_the_map_area() {
    let step = sample_step();
    let visualizer = compose_visualizer(&step, area(0, 3, 80, 3), area(0, 6, 80, 12), area(0, 18, 80, 3));
    assert_eq!(visualizer.header, header(&step, area(0, 3, 80, 3)));
    assert_eq!(visualizer.map_area, area(0, 6, 80, 12));
    assert_eq!(visualizer.legend, legend(160, 4, area(0, 18, 80, 3)));
    let areas: Vec<Area> = visualizer.boxes.iter().map(|drawn| drawn.area).collect();
    assert_eq!(areas, vec![area(0, 8, 16, 5), area(16, 8, 16, 5), area(32, 8, 4, 5), area(36, 8, 44, 5)]);
    let paints: Vec<Paint> = visualizer.boxes.iter().map(|drawn| drawn.paint).collect();
    assert_eq!(
        paints,
        vec![
            paint_of_block(false, false),
            paint_of_block(false, true),
            paint_of_block(true, false),
            paint_of_block(true, false),
        ]
    );
    let labels: Vec<Option<String>> = visualizer
        .boxes
        .iter()
        .map(|drawn| drawn.label.as_ref().map(|label| label.segments[0].text.clone()))
        .collect();
    assert_eq!(labels, vec![Some("32".to_string()), Some("32".to_string()), None, Some("88".to_string())]);
    assert_eq!(visualizer.boxes[1].label.as_ref().unwrap().area, area(17, 10, 14, 1));
    assert_eq!(
        visualizer.boxes[1].label.as_ref().unwrap().paint,
        Paint { foreground: Some(Shade::White), background: None, bold: false }
    );
}

#[test]
fn compose_visualizer_starts_at_the_left_edge_of_the_map_area() {
    let step = sample_step();
    let visualizer = compose_visualizer(&step, area(5, 0, 20, 3), area(5, 3, 20, 9), area(5, 12, 20, 3));
    let areas: Vec<Area> = visualizer.boxes.iter().map(|drawn| drawn.area).collect();
    assert_eq!(areas, vec![area(5, 5, 4, 5), area(9, 5, 4, 5), area(13, 5, 1, 5), area(14, 5, 11, 5)]);
}

#[test]
fn compose_visualizer_of_an_empty_step_draws_no_box() {
    let step = HeapStep {
        step: 0,
        algo: "first_fit".to_string(),
        op: "init".to_string(),
        highlight: String::new(),
        blocks: Vec::new(),
    };
    let visualizer = compose_visualizer(&step, area(0, 0, 80, 3), area(0, 3, 80, 10), area(0, 13, 80, 3));
    assert!(visualizer.boxes.is_empty());
    assert_eq!(visualizer.legend.segments[5].text, " | Total Size: 0 bytes | Blocks: 0");
    assert_eq!(visualizer.header.segments[0].text, "Algorithm: first_fit | Step: 0 | Op: init | Highlight: ");
}

#[test]
fn compose_statistics_has_one_bar_for_each_record() {
    let statistics = compose_statistics(&sample_results(), area(0, 3, 80, 9), area(0, 12, 80, 9));
    assert_eq!(statistics.time.area, area(0, 3, 80, 9));
    assert_eq!(statistics.time.title, "Execution Time (ms)");
    assert_eq!(
        statistics.time.bars,
        vec![
            Bar { label: "first_fit".to_string(), value: 1500 },
            Bar { label: "best_fit".to_string(), value: 2250 },
        ]
    );
    assert_eq!(statistics.time.bar_width, 10);
    assert_eq!(statistics.time.bar_gap, 5);
    assert_eq!(
        statistics.time.value_paint,
        Paint { foreground: Some(Shade::Black), background: Some(Shade::White), bold: false }
    );
    assert_eq!(statistics.time.paint, Paint { foreground: Some(Shade::Cyan), background: None, bold: false });
    assert_eq!(statistics.fragmentation.area, area(0, 12, 80, 9));
    assert_eq!(statistics.fragmentation.title, "Total Block Count (Fragmentation)");
    assert_eq!(
        statistics.fragmentation.bars,
        vec![
            Bar { label: "first_fit".to_string(), value: 42 },
            Bar { label: "best_fit".to_string(), value: 17 },
        ]
    );
    assert_eq!(statistics.fragmentation.bar_width, 10);
    assert_eq!(statistics.fragmentation.bar_gap, 5);
    assert_eq!(
        statistics.fragmentation.paint,
        Paint { foreground: Some(Shade::Magenta), background: None, bold: false }
    );
}

#[test]
fn compose_statistics_without_records_has_no_bars() {
    let statistics = compose_statistics(&Vec::new(), area(0, 0, 10, 2), area(0, 2, 10, 2));
    assert!(statistics.time.bars.is_empty());
    assert!(statistics.fragmentation.bars.is_empty());
}

#[test]
fn row_rules_of_the_screen_and_of_the_statistics() {
    assert_eq!(panel_rules(), vec![RowRule::Length(3), RowRule::Min(1), RowRule::Length(3)]);
    assert_eq!(halves_rules(), vec![RowRule::Percentage(50), RowRule::Percentage(50)]);
}

#[test]
fn ui_cuts_the_screen_into_tabs_content_and_footer() {
    let app = App::new(vec![sample_step()], sample_results());
    let screen = ui(&app, area(0, 0, 80, 24));
    assert_eq!(screen.tabs, tab_bar(CurrentTab::Visualizer, area(0, 0, 80, 3)));
    assert_eq!(screen.content_area, area(0, 3, 80, 18));
    assert_eq!(screen.footer, footer(CurrentTab::Visualizer, area(0, 21, 80, 3)));
}

#[test]
fn ui_shows_the_current_step_in_the_visualizer() {
    let step = sample_step();
    let app = App::new(vec![step.clone()], sample_results());
    let screen = ui(&app, area(0, 0, 80, 24));
    let expected = compose_visualizer(&step, area(0, 3, 80, 3), area(0, 6, 80, 12), area(0, 18, 80, 3));
    assert_eq!(screen.content, Content::Visualizer(Some(expected)));
}

#[test]
fn ui_follows_the_navigation() {
    let mut second = sample_step();
    second.step = 5;
    second.op = "free(0x20)".to_string();
    second.blocks[1].is_free = true;
    let mut app = App::new(vec![sample_step(), second.clone()], Vec::new());
    app.next_step();
    let screen = ui(&app, area(0, 0, 100, 30));
    let expected = compose_visualizer(&second, area(0, 3, 100, 3), area(0, 6, 100, 18), area(0, 24, 100, 3));
    assert_eq!(screen.content, Content::Visualizer(Some(expected)));
}

#[test]
fn ui_shows_the_charts_in_the_statistics_view() {
    let mut app = App::new(vec![sample_step()], sample_results());
    app.toggle_tab();
    let screen = ui(&app, area(0, 0, 80, 24));
    assert_eq!(screen.tabs.selected, 1);
    assert_eq!(screen.footer, footer(CurrentTab::Statistics, area(0, 21, 80, 3)));
    let expected = compose_statistics(&sample_results(), area(0, 3, 80, 9), area(0, 12, 80, 9));
    assert_eq!(screen.content, Content::Statistics(expected));
}

#[test]
fn ui_without_steps_shows_no_visualizer() {
    let app = App::new(Vec::new(), sample_results());
    let screen = ui(&app, area(0, 0, 80, 24));
    assert_eq!(screen.content, Content::Visualizer(None));
    assert_eq!(screen.tabs.selected, 0);
    assert_eq!(screen.footer.area, area(0, 21, 80, 3));
}

#[test]
fn render_visualizer_cuts_its_area_into_header_map_and_legend() {
    let app = App::new(vec![sample_step()], Vec::new());
    let visualizer = render_visualizer(&app, area(4, 2, 40, 20)).unwrap();
    assert_eq!(visualizer.header.area, area(4, 2, 40, 3));
    assert_eq!(visualizer.map_area, area(4, 5, 40, 14));
    assert_eq!(visualizer.legend.area, area(4, 19, 40, 3));
    let areas: Vec<Area> = visualizer.boxes.iter().map(|drawn| drawn.area).collect();
    assert_eq!(areas, vec![area(4, 7, 8, 5), area(12, 7, 8, 5), area(20, 7, 2, 5), area(22, 7, 22, 5)]);
}

#[test]
fn render_visualizer_without_a_current_step_is_nothing() {
    let app = App::new(Vec::new(), Vec::new());
    assert_eq!(render_visualizer(&app, area(0, 0, 80, 24)), None);
    let mut app = App::new(vec![sample_step()], Vec::new());
    app.current_step_index = 1;
    assert_eq!(render_visualizer(&app, area(0, 0, 80, 24)), None);
}

#[test]
fn render_statistics_cuts_its_area_into_halves() {
    let app = App::new(Vec::new(), sample_results());
    let statistics = render_statistics(&app, area(2, 3, 60, 18));
    assert_eq!(statistics.time.area, area(2, 3, 60, 9));
    assert_eq!(statistics.fragmentation.area, area(2, 12, 60, 9));
    assert_eq!(statistics, compose_statistics(&sample_results(), area(2, 3, 60, 9), area(2, 12, 60, 9)));
}

#[test]
fn rows_span_the_columns_of_the_area() {
    let app = App::new(vec![sample_step()], sample_results());
    for height in 0..12u16 {
        let whole = area(7, 1, 33, height);
        let screen = ui(&app, whole);
        for row in [screen.tabs.area, screen.content_area, screen.footer.area] {
            assert_eq!(row.x, 7);
            assert_eq!(row.width, 33);
        }
        match screen.content {
            Content::Visualizer(Some(visualizer)) => {
                for row in [visualizer.header.area, visualizer.map_area, visualizer.legend.area] {
                    assert_eq!(row.x, 7);
                    assert_eq!(row.width, 33);
                }
            }
            _ => panic!("the visualizer is on display"),
        }
    }
}
