use rltk::console::{Console, RGB};
use rltk::simple_console::{SimpleConsole, Tile};

const WHITE: RGB = RGB { r: 255, g: 255, b: 255 };
const BLACK: RGB = RGB { r: 0, g: 0, b: 0 };

#[test]
fn init_is_blank_and_dirty() {
    let c = SimpleConsole::init(3, 2);
    assert_eq!(c.tiles.len(), 6);
    assert!(c.dirty);
    assert_eq!(c.tile(2, 1), Some(Tile { glyph: 32, fg: WHITE, bg: BLACK }));
    assert_eq!(c.tile(3, 1), None);
    assert_eq!(c.tile(0, 2), None);
    assert_eq!(c.tile(-1, 0), None);
}

#[test]
fn print_clips_at_the_edges() {
    let mut c = SimpleConsole::init(4, 2);
    c.print(-1, 1, "abcdef");
    let got: Vec<u8> = (0..4).map(|x| c.tile(x, 1).unwrap().glyph).collect();
    assert_eq!(got, b"bcde".to_vec());
    assert_eq!(c.tile(0, 0).unwrap().glyph, 32);
    c.print(0, 5, "zz");
    c.print(0, -1, "zz");
    for y in 0..2 {
        for x in 0..4 {
            assert_ne!(c.tile(x, y).unwrap().glyph, b'z');
        }
    }
}

#[test]
fn print_maps_non_ascii_to_question_mark() {
    let mut c = SimpleConsole::init(4, 1);
    c.print(0, 0, "é!");
    assert_eq!(c.at(0, 0), Some(63));
    assert_eq!(c.at(1, 0), Some(33));
    assert_eq!(c.at(4, 0), None);
}

#[test]
fn cls_bg_sets_background() {
    let mut c = SimpleConsole::init(2, 2);
    c.print(0, 0, "q");
    c.rebuild_geometry();
    assert!(!c.is_dirty());
    let bg = RGB::from_u8(9, 8, 7);
    assert_eq!(bg, RGB { r: 9, g: 8, b: 7 });
    c.cls_bg(bg);
    assert!(c.is_dirty());
    assert_eq!(c.tile(0, 0), Some(Tile { glyph: 32, fg: WHITE, bg }));
    c.cls();
    assert_eq!(c.tile(1, 1), Some(Tile { glyph: 32, fg: WHITE, bg: BLACK }));
}
