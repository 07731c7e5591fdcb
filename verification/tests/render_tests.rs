//! Renderable-cell construction and compositor bookkeeping tests.

use nvim_ui::color::Rgb;
use nvim_ui::compositor::{OffscreenCompositor, blit_offset_per_mille};
use nvim_ui::render::{Error, string_cells};

#[test]
fn string_cells_place_glyphs_consecutively() {
    let white = Rgb { r: 255, g: 255, b: 255 };
    let black = Rgb { r: 0, g: 0, b: 0 };
    let chars: Vec<char> = "hi".chars().collect();
    let cells = string_cells(3, 10, white, black, &chars);
    assert_eq!(cells.len(), 2);
    assert_eq!((cells[0].line, cells[0].column, cells[0].character), (3, 10, 'h'));
    assert_eq!((cells[1].line, cells[1].column, cells[1].character), (3, 11, 'i'));
    assert!(!cells[0].flags.wide_char);
    assert_eq!(cells[0].underline, white, "underline colour follows the foreground");
}

#[test]
fn wide_glyph_is_flagged_and_spacer_skipped() {
    let white = Rgb { r: 255, g: 255, b: 255 };
    let black = Rgb { r: 0, g: 0, b: 0 };
    // a full-width glyph spans two columns; the char after the spacer lands
    // two columns further
    let chars: Vec<char> = vec!['あ', 'x', 'y'];
    let cells = string_cells(0, 0, white, black, &chars);
    assert_eq!(cells.len(), 2);
    assert_eq!(cells[0].character, 'あ');
    assert!(cells[0].flags.wide_char);
    assert_eq!(cells[1].character, 'y');
    assert_eq!(cells[1].column, 2);
    assert!(!cells[1].flags.wide_char);
}

#[test]
fn compositor_lifecycle_and_refresh_policy() {
    let mut comp = OffscreenCompositor::new();
    assert!(!comp.is_initialized());
    assert!(comp.needs_update(0, 0, 20), "an unallocated target always needs a refresh");

    comp.resize(800, 600);
    assert!(comp.is_initialized());
    comp.mark_updated(0, 0);

    // small drift and small offset: the pre-rendered content still covers us
    assert!(!comp.needs_update(5, 100, 20));
    // display offset drifted past the threshold
    assert!(comp.needs_update(11, 0, 20));
    // pixel offset passed a quarter of the 1200 px target height
    assert!(comp.needs_update(0, 301, 20));
    assert!(!comp.needs_update(0, 300, 20));
    assert!(comp.needs_update(0, -301, 20));

    comp.mark_updated(11, 0);
    assert!(!comp.needs_update(11, 0, 20));

    comp.teardown();
    assert!(!comp.is_initialized());
}

#[test]
fn blit_offset_centres_a_quarter_in() {
    assert_eq!(blit_offset_per_mille(0, 600), 250);
    assert_eq!(blit_offset_per_mille(120, 600), 350);
    assert_eq!(blit_offset_per_mille(-120, 600), 150);
}

#[test]
fn renderer_error_messages() {
    let shader = Error::Shader("bad vertex stage".to_string());
    assert_eq!(
        shader.message(),
        "There was an error initializing the shaders: bad vertex stage"
    );
    let other: Error = Error::from("context lost".to_string());
    assert_eq!(other.message(), "context lost");
}
