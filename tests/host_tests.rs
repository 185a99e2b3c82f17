use rltk::console::{Font, Shader, RGB};
use rltk::host::{DrawCall, HostError, Rltk};
use rltk::simple_console::{SimpleConsole, Tile};

fn font32() -> Font {
    Font { texture_id: 7, tile_width: 32, tile_height: 32 }
}

fn host() -> Rltk<SimpleConsole> {
    Rltk::new(1280, 720, Shader { program_id: 3 })
}

#[test]
fn new_host_is_empty() {
    let h = host();
    assert_eq!(h.width_pixels, 1280);
    assert_eq!(h.height_pixels, 720);
    assert!(h.fonts.is_empty());
    assert_eq!(h.shaders, vec![Shader { program_id: 3 }]);
    assert!(h.consoles.is_empty());
    assert_eq!(h.active_console, 0);
}

#[test]
fn registration_indices_count_up_per_registry() {
    let mut h = host();
    assert_eq!(h.register_font(font32()), 0);
    assert_eq!(h.register_console(SimpleConsole::init(4, 2), 0), 0);
    assert_eq!(h.register_font(Font { texture_id: 8, tile_width: 8, tile_height: 8 }), 1);
    assert_eq!(h.register_console(SimpleConsole::init(4, 2), 1), 1);
    assert_eq!(h.register_console(SimpleConsole::init(4, 2), 0), 2);
    assert_eq!(h.register_font(font32()), 2);
    assert_eq!(h.fonts.len(), 3);
    assert_eq!(h.consoles.len(), 3);
    assert_eq!(h.consoles[1].font_index, 1);
    assert_eq!(h.consoles[1].shader_index, 0);
}

#[test]
fn print_through_host_writes_active_console() {
    let mut h = host();
    let f = h.register_font(font32());
    let c = h.register_console(SimpleConsole::init(80, 50), f);
    h.set_active_console(c);
    assert_eq!(h.print(0, 0, "hi"), Ok(()));
    let white = RGB { r: 255, g: 255, b: 255 };
    let black = RGB { r: 0, g: 0, b: 0 };
    let cons = &h.consoles[0].console;
    assert_eq!(cons.tile(0, 0), Some(Tile { glyph: b'h', fg: white, bg: black }));
    assert_eq!(cons.tile(1, 0), Some(Tile { glyph: b'i', fg: white, bg: black }));
    assert_eq!(cons.tile(2, 0), Some(Tile { glyph: 32, fg: white, bg: black }));
    assert_eq!(h.at(0, 0), Ok(Some(104)));
    assert_eq!(h.at(1, 0), Ok(Some(105)));
}

#[test]
fn activate_out_of_range_console_is_an_error() {
    let mut h = host();
    let f = h.register_font(font32());
    h.register_console(SimpleConsole::init(10, 10), f);
    h.register_console(SimpleConsole::init(10, 10), f);
    h.set_active_console(5);
    assert_eq!(h.active_console, 5);
    let err = HostError::ConsoleOutOfRange { id: 5, count: 2 };
    assert_eq!(h.print(0, 0, "x"), Err(err));
    assert_eq!(h.cls(), Err(err));
    assert_eq!(h.cls_bg(RGB { r: 1, g: 2, b: 3 }), Err(err));
    assert_eq!(h.print_color(0, 0, RGB { r: 1, g: 2, b: 3 }, RGB { r: 4, g: 5, b: 6 }, "x"), Err(err));
    assert_eq!(h.at(0, 0), Err(err));
    assert_eq!(h.consoles[0].console.tile(0, 0).unwrap().glyph, 32);
    assert_eq!(h.consoles[1].console.tile(0, 0).unwrap().glyph, 32);
}

#[test]
fn forwarded_calls_reach_only_the_selected_console() {
    let mut h = host();
    let f = h.register_font(font32());
    h.register_console(SimpleConsole::init(10, 3), f);
    h.register_console(SimpleConsole::init(10, 3), f);
    h.set_active_console(1);
    let fg = RGB { r: 10, g: 20, b: 30 };
    let bg = RGB { r: 40, g: 50, b: 60 };
    assert_eq!(h.print_color(3, 2, fg, bg, "ok"), Ok(()));
    assert_eq!(h.consoles[1].console.tile(3, 2), Some(Tile { glyph: b'o', fg, bg }));
    assert_eq!(h.consoles[1].console.tile(4, 2), Some(Tile { glyph: b'k', fg, bg }));
    assert_eq!(h.consoles[0].console.tile(3, 2).unwrap().glyph, 32);
    assert_eq!(h.cls_bg(bg), Ok(()));
    assert_eq!(h.consoles[1].console.tile(3, 2), Some(Tile { glyph: 32, fg: RGB { r: 255, g: 255, b: 255 }, bg }));
    assert_eq!(h.consoles[0].console.tile(0, 0).unwrap().bg, RGB { r: 0, g: 0, b: 0 });
    h.set_active_console(0);
    assert_eq!(h.print(0, 1, "z"), Ok(()));
    assert_eq!(h.at(0, 1), Ok(Some(b'z' as usize)));
    assert_eq!(h.cls(), Ok(()));
    assert_eq!(h.at(0, 1), Ok(Some(32)));
}

#[test]
fn rebuild_only_dirty_consoles() {
    let mut h = host();
    let f = h.register_font(font32());
    h.register_console(SimpleConsole::init(4, 4), f);
    h.register_console(SimpleConsole::init(4, 4), f);
    // new consoles start dirty
    assert_eq!(h.rebuild_dirty_consoles(), vec![true, true]);
    assert_eq!(h.rebuild_dirty_consoles(), vec![false, false]);
    h.set_active_console(1);
    h.print(0, 0, "a").unwrap();
    assert!(h.consoles[1].console.dirty);
    assert!(!h.consoles[0].console.dirty);
    assert_eq!(h.rebuild_dirty_consoles(), vec![false, true]);
    assert!(!h.consoles[1].console.dirty);
    assert_eq!(h.consoles[1].console.tile(0, 0).unwrap().glyph, b'a');
}

#[test]
fn draw_in_registration_order_and_report_bad_bindings() {
    let mut h = host();
    let f = h.register_font(font32());
    h.register_console(SimpleConsole::init(2, 2), f);
    h.register_console(SimpleConsole::init(2, 2), 4);
    h.register_console(SimpleConsole::init(2, 2), f);
    h.consoles[2].shader_index = 9;
    h.register_console(SimpleConsole::init(2, 2), f);
    let expected = vec![
        Ok(DrawCall { console: 0, font_index: 0, shader_index: 0 }),
        Err(HostError::FontOutOfRange { console: 1, font_index: 4, count: 1 }),
        Err(HostError::ShaderOutOfRange { console: 2, shader_index: 9, count: 1 }),
        Ok(DrawCall { console: 3, font_index: 0, shader_index: 0 }),
    ];
    assert_eq!(h.draw_plan(), expected);
    assert_eq!(h.draw_consoles(), expected);
    assert_eq!(h.draw_plan(), expected);
}

#[test]
fn draw_with_nothing_registered() {
    let mut h = host();
    assert!(h.draw_plan().is_empty());
    assert!(h.draw_consoles().is_empty());
    assert!(h.rebuild_dirty_consoles().is_empty());
}
