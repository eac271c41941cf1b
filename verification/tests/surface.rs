use rsvg_core::surface::ExclusiveImageBuffer;
use rsvg_core::surface::Pixel;

fn px(r: u8, g: u8, b: u8, a: u8) -> Pixel {
    Pixel { r, g, b, a }
}

#[test]
fn new_buffer_is_transparent() {
    let buffer = ExclusiveImageBuffer::new(3, 2).unwrap();
    assert_eq!(buffer.width(), 3);
    assert_eq!(buffer.height(), 2);
    assert_eq!(buffer.stride(), 3);
    for y in 0..2 {
        for x in 0..3 {
            assert_eq!(buffer.get_pixel(x, y), px(0, 0, 0, 0));
        }
    }
}

#[test]
fn buffer_over_the_size_limit_is_refused() {
    assert!(ExclusiveImageBuffer::new(32768, 1).is_none());
    assert!(ExclusiveImageBuffer::new(1, 32768).is_none());
    assert!(ExclusiveImageBuffer::new(u32::MAX, u32::MAX).is_none());
    assert!(ExclusiveImageBuffer::new(32767, 1).is_some());
    assert!(ExclusiveImageBuffer::new(0, 0).is_some());
    assert!(ExclusiveImageBuffer::from_pixels(32768, 0, vec![]).is_none());
}

#[test]
fn buffer_from_pixels_is_row_by_row() {
    let pixels = vec![px(1, 0, 0, 1), px(2, 0, 0, 2), px(3, 0, 0, 3), px(4, 0, 0, 4), px(5, 0, 0, 5), px(6, 0, 0, 6)];
    let buffer = ExclusiveImageBuffer::from_pixels(3, 2, pixels).unwrap();
    assert_eq!(buffer.get_pixel(0, 0), px(1, 0, 0, 1));
    assert_eq!(buffer.get_pixel(2, 0), px(3, 0, 0, 3));
    assert_eq!(buffer.get_pixel(0, 1), px(4, 0, 0, 4));
    assert_eq!(buffer.get_pixel(2, 1), px(6, 0, 0, 6));
}

#[test]
fn pixels_that_do_not_fill_the_grid_are_refused() {
    assert!(ExclusiveImageBuffer::from_pixels(2, 2, vec![px(0, 0, 0, 0); 3]).is_none());
    assert!(ExclusiveImageBuffer::from_pixels(2, 2, vec![px(0, 0, 0, 0); 5]).is_none());
    assert!(ExclusiveImageBuffer::from_pixels(0, 5, vec![]).is_some());
}

#[test]
fn set_pixel_writes_one_place() {
    let mut buffer = ExclusiveImageBuffer::new(3, 3).unwrap();
    buffer.set_pixel(px(9, 8, 7, 255), 1, 2);
    for y in 0..3 {
        for x in 0..3 {
            let expected = if (x, y) == (1, 2) { px(9, 8, 7, 255) } else { px(0, 0, 0, 0) };
            assert_eq!(buffer.get_pixel(x, y), expected);
        }
    }
    buffer.set_pixel(px(1, 1, 1, 1), 1, 2);
    assert_eq!(buffer.get_pixel(1, 2), px(1, 1, 1, 1));
}

#[test]
fn shared_buffer_holds_what_was_written() {
    let mut buffer = ExclusiveImageBuffer::new(2, 2).unwrap();
    buffer.set_pixel(px(10, 20, 30, 40), 1, 0);
    let shared = buffer.share();
    assert_eq!(shared.width(), 2);
    assert_eq!(shared.height(), 2);
    assert_eq!(shared.get_pixel(1, 0), px(10, 20, 30, 40));
    assert_eq!(shared.get_pixel(0, 1), px(0, 0, 0, 0));
}

#[test]
fn handles_read_the_same_image() {
    let buffer =
        ExclusiveImageBuffer::from_pixels(1, 2, vec![px(1, 2, 3, 4), px(5, 6, 7, 8)]).unwrap();
    let shared = buffer.share();
    let first = shared.clone_handle();
    let second = first.clone_handle();
    drop(shared);
    assert_eq!(first.width(), 1);
    assert_eq!(second.height(), 2);
    assert_eq!(first.get_pixel(0, 1), px(5, 6, 7, 8));
    assert_eq!(second.get_pixel(0, 0), px(1, 2, 3, 4));
}
