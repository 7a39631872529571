use sys_stats::metric::{CpuMetric, GpuMetric, MetricKind};
use sys_stats::monitor::ram::bytes_to_gigabytes;
use sys_stats::render::{Text, WidgetRenderer};
use sys_stats::util::{rectangle, Position, Rectangle};
use sys_stats::widget::cpu::CpuWidget;
use sys_stats::widget::gpu::{GpuGraphWidget, GpuTextWidget};
use sys_stats::widget::graph::bar_rectangle;
use sys_stats::widget::ram::RamWidget;
use sys_stats::widget::text::TextWidget;
use sys_stats::widget::{calculate_width, WIDGET_MARGIN};

#[test]
fn no_widgets_take_no_width() {
    assert_eq!(calculate_width(&[]), 0);
}

#[test]
fn one_widget_takes_its_width() {
    assert_eq!(calculate_width(&[35]), 35);
}

#[test]
fn widgets_are_separated_by_margins() {
    assert_eq!(calculate_width(&[35, 70]), 115);
    assert_eq!(calculate_width(&[30, 50, 30]), 130);
}

#[test]
fn layout_places_widgets_a_margin_apart() {
    let positions = WidgetRenderer::new().layout(&[35, 70, 30]);
    let xs: Vec<u16> = positions.iter().map(|p| p.x).collect();
    assert_eq!(xs, vec![0, 45, 125]);
    assert!(positions.iter().all(|p| p.y == 0));
}

#[test]
fn last_widget_ends_at_window_width() {
    let widths = [35u16, 70, 30, 50];
    let positions = WidgetRenderer::new().layout(&widths);
    let last = positions.last().unwrap();
    assert_eq!(i32::from(last.x + widths[3]), calculate_width(&widths));
}

#[test]
fn margin_is_ten_pixels() {
    assert_eq!(WIDGET_MARGIN, 10);
}

#[test]
fn text_keeps_its_value() {
    let text = Text::from(String::from("CPU\n12%"));
    assert_eq!(text.value(), "CPU\n12%");
}

#[test]
fn widget_constructors_start_with_their_widths() {
    assert_eq!(CpuWidget::new().width(), 35);
    assert_eq!(RamWidget::new().width(), 70);
    let text = TextWidget::new("RAM", MetricKind::Cpu(CpuMetric::Usage));
    assert_eq!(text.width(), 30);
    assert_eq!(text.title(), "RAM");
    assert_eq!(text.metric(), MetricKind::Cpu(CpuMetric::Usage));
    let gpu_text = GpuTextWidget::new(MetricKind::Gpu(GpuMetric::Temperature));
    assert_eq!(gpu_text.metric(), MetricKind::Gpu(GpuMetric::Temperature));
    assert_eq!(gpu_text.width(), 30);
    let gpu_graph: GpuGraphWidget<u32> = GpuGraphWidget::new(MetricKind::Gpu(GpuMetric::Usage), 50);
    assert_eq!(gpu_graph.metric(), MetricKind::Gpu(GpuMetric::Usage));
    assert_eq!(gpu_graph.width(), 50);
    assert_eq!(gpu_graph.values().iter().count(), 0);
}

#[test]
fn gpu_graph_keeps_as_many_readings_as_it_is_wide() {
    let mut graph = GpuGraphWidget::new(MetricKind::Gpu(GpuMetric::Temperature), 3);
    for v in [10u32, 20, 30, 40, 50] {
        graph.push(v);
    }
    let kept: Vec<u32> = graph.values().iter().copied().collect();
    assert_eq!(kept, vec![30, 40, 50]);
    assert_eq!(graph.width(), 3);
}

#[test]
fn text_widgets_take_measured_width() {
    let mut text = TextWidget::new("CPU", MetricKind::Cpu(CpuMetric::Frequency));
    text.set_width(44);
    assert_eq!(text.width(), 44);
    assert_eq!(text.title(), "CPU");
    let mut ram = RamWidget::new();
    ram.set_width(61);
    assert_eq!(ram.width(), 61);
    let mut gpu = GpuTextWidget::new(MetricKind::Gpu(GpuMetric::Usage));
    gpu.set_width(28);
    assert_eq!(gpu.width(), 28);
}

#[test]
fn newest_bar_sits_at_right_edge() {
    let area = rectangle(50, 40, &Position::new(100, 0));
    let bar = bar_rectangle(&area, 0, 10);
    assert_eq!(bar, Rectangle { left: 149, top: 40, right: 150, bottom: 30 });
}

#[test]
fn oldest_bar_sits_at_left_edge() {
    let area = rectangle(50, 40, &Position::new(100, 0));
    let bar = bar_rectangle(&area, 49, 40);
    assert_eq!(bar, Rectangle { left: 100, top: 40, right: 101, bottom: 0 });
}

#[test]
fn empty_bar_has_no_height() {
    let area = rectangle(50, 40, &Position::new(0, 0));
    let bar = bar_rectangle(&area, 3, 0);
    assert_eq!(bar.top, bar.bottom);
}

#[test]
fn gigabytes_are_whole() {
    assert_eq!(bytes_to_gigabytes(0), 0);
    assert_eq!(bytes_to_gigabytes(1_073_741_823), 0);
    assert_eq!(bytes_to_gigabytes(1_073_741_824), 1);
    assert_eq!(bytes_to_gigabytes(17_179_869_184 + 5), 16);
}

#[test]
fn gigabytes_wrap_at_sixteen_bits() {
    assert_eq!(bytes_to_gigabytes(65_536 * 1_073_741_824), 0);
    assert_eq!(bytes_to_gigabytes(65_537 * 1_073_741_824), 1);
}
