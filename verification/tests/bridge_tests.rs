use wio_core::bridge::LineSpan;
use wio_core::bridge::RenderBridge;
use wio_core::bridge::rgb888_to_rgb565;

#[test]
fn no_dirty_region_performs_zero_transport_writes() {
    let mut bridge = RenderBridge::new(320);
    let frame: Option<Vec<LineSpan>> = None;
    let writes = bridge.render_frame(&frame);
    assert!(writes.is_empty());
    // Still a no-op on the very next frame.
    let writes = bridge.render_frame(&frame);
    assert!(writes.is_empty());
}

#[test]
fn write_covers_exactly_the_reported_span() {
    let mut bridge = RenderBridge::new(10);
    let pixels = vec![0x1111u16, 0x2222, 0x3333];
    let w = bridge.process_line(4, 2, &pixels);
    assert_eq!(w.x, 2);
    assert_eq!(w.y, 4);
    assert_eq!(w.width, 3);
    assert_eq!(w.height, 1);
    assert_eq!(w.pixels, pixels);
}

#[test]
fn reused_buffer_leaks_nothing_between_spans() {
    // The same row buffer carries every span; a later, narrower span
    // must read back only its own columns, never stale neighbours.
    let mut bridge = RenderBridge::new(8);
    let first = vec![0xAAAAu16, 0xBBBB, 0xCCCC, 0xDDDD];
    let w1 = bridge.process_line(0, 0, &first);
    assert_eq!(w1.pixels, first);
    let second = vec![0x9999u16, 0x8888];
    let w2 = bridge.process_line(1, 1, &second);
    assert_eq!(w2.x, 1);
    assert_eq!(w2.y, 1);
    assert_eq!(w2.width, 2);
    assert_eq!(w2.pixels, second);
}

#[test]
fn frame_with_spans_yields_one_write_per_span() {
    let mut bridge = RenderBridge::new(16);
    let spans = vec![
        LineSpan { row: 3, start: 0, pixels: vec![1u16, 2, 3] },
        LineSpan { row: 4, start: 5, pixels: vec![7u16] },
        LineSpan { row: 5, start: 15, pixels: vec![9u16] },
    ];
    let frame = Some(spans);
    let writes = bridge.render_frame(&frame);
    let spans = frame.as_ref().unwrap();
    assert_eq!(writes.len(), spans.len());
    for (w, s) in writes.iter().zip(spans.iter()) {
        assert_eq!(w.x, s.start);
        assert_eq!(w.y, s.row);
        assert_eq!(w.width, s.pixels.len());
        assert_eq!(w.height, 1);
        assert_eq!(w.pixels, s.pixels);
    }
}

#[test]
fn empty_span_list_yields_no_writes() {
    let mut bridge = RenderBridge::new(16);
    let frame = Some(Vec::new());
    let writes = bridge.render_frame(&frame);
    assert!(writes.is_empty());
}

#[test]
fn color_conversion_packs_565() {
    assert_eq!(rgb888_to_rgb565(0, 0, 0), 0x0000);
    assert_eq!(rgb888_to_rgb565(255, 255, 255), 0xFFFF);
    assert_eq!(rgb888_to_rgb565(255, 0, 0), 0xF800);
    assert_eq!(rgb888_to_rgb565(0, 255, 0), 0x07E0);
    assert_eq!(rgb888_to_rgb565(0, 0, 255), 0x001F);
    // 0x12 -> top five bits 00010; 0x34 -> top six 001101; 0x56 -> top five 01010.
    assert_eq!(rgb888_to_rgb565(0x12, 0x34, 0x56), (0x02 << 11) | (0x0D << 5) | 0x0A);
}
