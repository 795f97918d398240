use golem_core::buffer::{BinaryColor, DrawBuffer, Pixel, Point, Rect, Size};

fn size(width: u32, height: u32) -> Size {
    Size { width, height }
}

fn point(x: i32, y: i32) -> Point {
    Point { x, y }
}

fn rect(x: i32, y: i32, width: u32, height: u32) -> Rect {
    Rect { top_left: point(x, y), size: size(width, height) }
}

#[test]
fn buffer_works() {
    let mut buffer = DrawBuffer::new(size(2, 2));
    buffer.set_pixel(point(1, 1), BinaryColor::On);

    assert_eq!(buffer.get_pixel(point(0, 0)), BinaryColor::Off);
    assert_eq!(buffer.get_pixel(point(1, 1)), BinaryColor::On);

    assert_eq!(buffer.to_le_bytes(), b"\x00\x40");

    buffer.set_pixel(point(0, 0), BinaryColor::On);
    assert_eq!(buffer.to_le_bytes(), b"\x80\x40");
}

#[test]
fn buffer_view() {
    let mut buffer = DrawBuffer::new(size(5, 5));
    buffer.set_pixel(point(1, 1), BinaryColor::On);

    let view = buffer.sub_buffer(rect(1, 1, 2, 2));
    assert_eq!(buffer.get_pixel_in(&view, point(0, 0)), BinaryColor::On);
}

#[test]
fn buffer_view_complex() {
    let mut buffer = DrawBuffer::new(size(100, 100));

    for x in 10..50 {
        for y in 10..50 {
            buffer.set_pixel(point(x, y), BinaryColor::On);
        }
    }

    let view = buffer.sub_buffer(rect(20, 20, 20, 20));
    let view2 = view.sub(rect(5, 5, 10, 10));

    buffer.set_pixel_in(&view2, point(2, 2), BinaryColor::Off);

    assert_eq!(buffer.get_pixel_in(&view2, point(2, 2)), BinaryColor::Off);
    assert_eq!(buffer.get_pixel_in(&view, point(7, 7)), BinaryColor::Off);
    assert_eq!(buffer.get_pixel(point(27, 27)), BinaryColor::Off);
}

#[test]
fn endianness_helpers_agree_for_binary_pixels() {
    let mut buffer = DrawBuffer::new(size(9, 1));
    buffer.set_pixel(point(0, 0), BinaryColor::On);
    buffer.set_pixel(point(8, 0), BinaryColor::On);
    // Nine pixels pack into two bytes; the second byte is padded.
    assert_eq!(buffer.to_le_bytes(), vec![0x80, 0x80]);
    assert_eq!(buffer.to_be_bytes(), vec![0x80, 0x80]);
    assert_eq!(buffer.to_ne_bytes(), vec![0x80, 0x80]);
}

#[test]
fn invert_flips_every_pixel() {
    let mut buffer = DrawBuffer::with_default_color(size(3, 3), BinaryColor::Off);
    buffer.set_pixel(point(1, 1), BinaryColor::On);
    buffer.invert();
    assert_eq!(buffer.get_pixel(point(1, 1)), BinaryColor::Off);
    assert_eq!(buffer.get_pixel(point(0, 0)), BinaryColor::On);
    assert_eq!(buffer.get_pixel(point(2, 2)), BinaryColor::On);
}

#[test]
fn draw_iter_applies_in_order() {
    let mut buffer = DrawBuffer::new(size(4, 4));
    buffer.draw_iter(&vec![
        Pixel(point(0, 0), BinaryColor::On),
        Pixel(point(3, 3), BinaryColor::On),
        Pixel(point(0, 0), BinaryColor::Off),
        // A point beyond the arena is ignored.
        Pixel(point(7, 7), BinaryColor::On),
    ]);
    assert_eq!(buffer.get_pixel(point(0, 0)), BinaryColor::Off);
    assert_eq!(buffer.get_pixel(point(3, 3)), BinaryColor::On);
}

#[test]
fn out_of_range_set_pixel_is_ignored() {
    let mut buffer = DrawBuffer::new(size(2, 2));
    buffer.set_pixel(point(5, 0), BinaryColor::On);
    assert_eq!(buffer.to_le_bytes(), vec![0x00, 0x00]);
}

#[test]
fn sub_buffer_clips_to_the_arena() {
    let buffer = DrawBuffer::new(size(10, 10));
    let view = buffer.sub_buffer(rect(-5, 8, 100, 100));
    assert_eq!(view.x, 0);
    assert_eq!(view.y, 8);
    assert_eq!(view.size, size(10, 2));

    let empty = buffer.sub_buffer(rect(20, 20, 3, 3));
    assert_eq!(empty.size, size(0, 0));
}

#[test]
fn osd_title_dimensions() {
    let buffer = DrawBuffer::osd_title();
    assert_eq!(buffer.size(), size(320, 16));
    assert_eq!(buffer.to_le_bytes().len(), 40 * 16);
}

#[test]
fn region_translate_composes_offsets() {
    let buffer = DrawBuffer::new(size(50, 50));
    let view = buffer.sub_buffer(rect(10, 20, 10, 10));
    let p = view.translate(point(3, 4));
    assert_eq!(p, point(13, 24));
}

#[test]
fn color_invert() {
    assert_eq!(BinaryColor::On.invert(), BinaryColor::Off);
    assert_eq!(BinaryColor::Off.invert(), BinaryColor::On);
}
