use rsvg_core::context::FilterContext;
use rsvg_core::context::FilterInput;
use rsvg_core::context::FilterOutput;
use rsvg_core::context::FilterResult;
use rsvg_core::region::Region;
use rsvg_core::surface::ExclusiveImageBuffer;
use rsvg_core::surface::Pixel;
use rsvg_core::surface::SharedImageBuffer;

fn flat(width: u32, height: u32, sample: u8) -> SharedImageBuffer {
    let pixel = Pixel { r: sample, g: sample, b: sample, a: sample };
    let count = (width * height) as usize;
    ExclusiveImageBuffer::from_pixels(width, height, vec![pixel; count]).unwrap().share()
}

fn named(name: &str, sample: u8, bounds: Region) -> FilterResult {
    FilterResult {
        name: Some(String::from(name)),
        output: FilterOutput { surface: flat(4, 3, sample), bounds },
    }
}

fn sample_of(input: &FilterInput) -> u8 {
    input.surface().get_pixel(0, 0).a
}

#[test]
fn context_has_the_size_of_its_source() {
    let ctx = FilterContext::new(flat(4, 3, 7));
    assert_eq!(ctx.width(), 4);
    assert_eq!(ctx.height(), 3);
    assert_eq!(ctx.canvas_extent(), Region::new(0, 0, 4, 3));
    assert_eq!(ctx.source_graphic().get_pixel(3, 2).r, 7);
}

#[test]
fn lookup_without_a_name_gives_the_source() {
    let mut ctx = FilterContext::new(flat(4, 3, 7));
    ctx.store_result(named("a", 1, Region::new(0, 0, 1, 1)));
    let input = ctx.lookup(None);
    assert!(matches!(input, FilterInput::StandardInput(_)));
    assert_eq!(sample_of(&input), 7);
    assert_eq!(ctx.bounds_of(&input), Region::new(0, 0, 4, 3));
}

#[test]
fn lookup_of_an_unset_name_gives_the_source() {
    let mut ctx = FilterContext::new(flat(4, 3, 7));
    let input = ctx.lookup(Some("blur"));
    assert!(matches!(input, FilterInput::StandardInput(_)));
    ctx.store_result(named("a", 1, Region::new(0, 0, 1, 1)));
    let input = ctx.lookup(Some("blur"));
    assert!(matches!(input, FilterInput::StandardInput(_)));
    assert_eq!(sample_of(&input), 7);
    let input = ctx.lookup(Some("A"));
    assert!(matches!(input, FilterInput::StandardInput(_)));
    let input = ctx.lookup(Some(""));
    assert!(matches!(input, FilterInput::StandardInput(_)));
}

#[test]
fn lookup_of_a_registered_name_gives_its_output() {
    let mut ctx = FilterContext::new(flat(4, 3, 7));
    ctx.store_result(named("a", 1, Region::new(0, 0, 1, 1)));
    ctx.store_result(named("b", 2, Region::new(1, 1, 3, 2)));
    let input = ctx.lookup(Some("a"));
    assert!(matches!(input, FilterInput::PrimitiveOutput(_)));
    assert_eq!(sample_of(&input), 1);
    assert_eq!(ctx.bounds_of(&input), Region::new(0, 0, 1, 1));
    let input = ctx.lookup(Some("b"));
    assert_eq!(sample_of(&input), 2);
    assert_eq!(ctx.bounds_of(&input), Region::new(1, 1, 3, 2));
}

#[test]
fn most_recent_registration_under_a_name_stands() {
    let mut ctx = FilterContext::new(flat(4, 3, 7));
    ctx.store_result(named("a", 1, Region::new(0, 0, 1, 1)));
    ctx.store_result(named("b", 2, Region::new(0, 0, 2, 2)));
    ctx.store_result(named("a", 3, Region::new(0, 0, 3, 3)));
    let input = ctx.lookup(Some("a"));
    assert_eq!(sample_of(&input), 3);
    assert_eq!(ctx.bounds_of(&input), Region::new(0, 0, 3, 3));
    let input = ctx.lookup(Some("b"));
    assert_eq!(sample_of(&input), 2);
}

#[test]
fn result_without_a_name_is_not_registered() {
    let mut ctx = FilterContext::new(flat(4, 3, 7));
    ctx.store_result(named("a", 1, Region::new(0, 0, 1, 1)));
    ctx.store_result(FilterResult {
        name: None,
        output: FilterOutput { surface: flat(4, 3, 9), bounds: Region::new(0, 0, 4, 3) },
    });
    assert_eq!(sample_of(&ctx.lookup(Some("a"))), 1);
    assert_eq!(sample_of(&ctx.lookup(None)), 7);
}

#[test]
fn names_outside_ascii_are_compared_exactly() {
    let mut ctx = FilterContext::new(flat(4, 3, 7));
    ctx.store_result(named("r\u{e9}sultat", 5, Region::new(0, 0, 1, 1)));
    assert_eq!(sample_of(&ctx.lookup(Some("r\u{e9}sultat"))), 5);
    assert_eq!(sample_of(&ctx.lookup(Some("resultat"))), 7);
    assert_eq!(sample_of(&ctx.lookup(Some("r\u{e8}sultat"))), 7);
}
