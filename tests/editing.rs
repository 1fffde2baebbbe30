use pxref::{
    Checker, Color, EditError, Frame, LoadError, PixelImage, PointerInput, Pos, PxRefFile, Side,
    TemplateApp, get_checkerboard,
};

const RED: Color = Color { r: 255, g: 0, b: 0, a: 255 };

fn frame_cell(x: i32, y: i32) -> Pos {
    Pos { x: 16 + 16 * x + 8, y: 32 + 16 * y + 8 }
}

fn palette_cell(x: i32, y: i32) -> Pos {
    Pos { x: 288 + 16 * x + 8, y: 32 + 16 * y + 8 }
}

fn input(dragging: bool, press: Option<Pos>, latest: Option<Pos>) -> PointerInput {
    PointerInput {
        dragging,
        press_origin: press,
        latest,
        pressed: false,
        shift: false,
        ctrl: false,
        command: false,
    }
}

fn red_corner() -> PixelImage {
    let mut data = vec![0u8; 2 * 2 * 4];
    data[0..4].copy_from_slice(&[255, 0, 0, 255]);
    PixelImage { width: 2, height: 2, data }
}

fn editor_with_palette() -> TemplateApp {
    let mut app = TemplateApp::new_editor();
    app.load_palette("pal.png".to_string(), &red_corner()).unwrap();
    app
}

/// Drags from the palette cell to the frame cell and releases.
fn drag_from_palette(app: &mut TemplateApp, from: (i32, i32), to: (i32, i32)) {
    let press = palette_cell(from.0, from.1);
    let over = frame_cell(to.0, to.1);
    app.handle_pointer(&input(true, Some(press), Some(over)));
    app.handle_pointer(&input(false, None, Some(over)));
}

#[test]
fn new_editor_has_one_blank_frame() {
    let app = TemplateApp::default();
    assert_eq!(app.frames.len(), 1);
    assert_eq!(app.current_frame, 0);
    assert!(app.file_path.is_none());
    assert!(app.frames[0].cells.iter().all(|c| c.is_none()));
    assert_eq!(app.drag.side, Side::Idle);
}

#[test]
fn assign_from_palette_then_resolve() {
    let mut app = editor_with_palette();
    drag_from_palette(&mut app, (0, 0), (3, 3));
    let f = &app.frames[0];
    assert_eq!(f.get(3, 3), Some((0, 0)));
    assert_eq!(f.resolve(&app.palette, 3, 3), Some(RED));
    assert_eq!(f.label(&app.palette, 3, 3).unwrap().to_string(), "1");
    assert_eq!(f.cells.iter().filter(|c| c.is_some()).count(), 1);
    assert!(app.drag.start.is_none());
    assert_eq!(app.drag.side, Side::Idle);
}

#[test]
fn palette_drag_shows_swatch_while_dragging() {
    let mut app = editor_with_palette();
    let over = frame_cell(5, 5);
    let shown = app.handle_pointer(&input(true, Some(palette_cell(0, 0)), Some(over)));
    assert_eq!(shown.swatch, Some((over, RED)));
    assert_eq!(shown.covered, None);
    assert_eq!(app.drag.side, Side::Palette);
    assert!(app.frames[0].get(5, 5).is_none());
}

#[test]
fn palette_release_outside_frame_changes_nothing() {
    let mut app = editor_with_palette();
    let outside = Pos { x: 500, y: 40 };
    app.handle_pointer(&input(true, Some(palette_cell(0, 0)), Some(outside)));
    app.handle_pointer(&input(false, None, Some(outside)));
    assert!(app.frames[0].cells.iter().all(|c| c.is_none()));
    assert!(app.drag.start.is_none());
}

#[test]
fn ctrl_drag_moves_reference() {
    let mut app = editor_with_palette();
    drag_from_palette(&mut app, (0, 0), (2, 2));
    let a = frame_cell(2, 2);
    let b = frame_cell(7, 4);
    let mut held = input(true, Some(a), Some(b));
    held.ctrl = true;
    let shown = app.handle_pointer(&held);
    assert_eq!(shown.covered, Some((2, 2)));
    assert_eq!(shown.swatch, Some((b, RED)));
    let mut release = input(false, None, Some(b));
    release.ctrl = true;
    app.handle_pointer(&release);
    let f = &app.frames[0];
    assert_eq!(f.get(7, 4), Some((0, 0)));
    assert_eq!(f.get(2, 2), None);
    assert_eq!(f.cells.iter().filter(|c| c.is_some()).count(), 1);
}

#[test]
fn command_drag_moves_reference() {
    let mut app = editor_with_palette();
    drag_from_palette(&mut app, (1, 0), (0, 0));
    let mut held = input(true, Some(frame_cell(0, 0)), Some(frame_cell(15, 15)));
    held.command = true;
    app.handle_pointer(&held);
    let mut release = input(false, None, Some(frame_cell(15, 15)));
    release.command = true;
    app.handle_pointer(&release);
    assert_eq!(app.frames[0].get(15, 15), Some((1, 0)));
    assert_eq!(app.frames[0].get(0, 0), None);
}

#[test]
fn plain_frame_drag_changes_nothing() {
    let mut app = editor_with_palette();
    drag_from_palette(&mut app, (0, 0), (2, 2));
    let before = app.frames[0].cells.clone();
    app.handle_pointer(&input(true, Some(frame_cell(2, 2)), Some(frame_cell(9, 9))));
    app.handle_pointer(&input(false, None, Some(frame_cell(9, 9))));
    assert_eq!(app.frames[0].cells, before);
    assert_eq!(app.drag.side, Side::Idle);
}

#[test]
fn shift_drag_clears_cells() {
    let mut app = editor_with_palette();
    drag_from_palette(&mut app, (0, 0), (4, 4));
    drag_from_palette(&mut app, (1, 1), (5, 4));
    let mut held = input(true, Some(frame_cell(1, 1)), Some(frame_cell(4, 4)));
    held.shift = true;
    app.handle_pointer(&held);
    assert_eq!(app.frames[0].get(4, 4), None);
    held.latest = Some(frame_cell(5, 4));
    app.handle_pointer(&held);
    assert_eq!(app.frames[0].get(5, 4), None);
}

#[test]
fn shift_press_erases() {
    let mut app = editor_with_palette();
    drag_from_palette(&mut app, (0, 0), (6, 1));
    let mut click = input(false, None, Some(frame_cell(6, 1)));
    click.pressed = true;
    click.shift = true;
    app.handle_pointer(&click);
    assert_eq!(app.frames[0].get(6, 1), None);
}

#[test]
fn shift_press_on_palette_erases_nothing() {
    let mut app = editor_with_palette();
    drag_from_palette(&mut app, (0, 0), (0, 0));
    let mut click = input(false, None, Some(palette_cell(0, 0)));
    click.pressed = true;
    click.shift = true;
    app.handle_pointer(&click);
    assert_eq!(app.frames[0].get(0, 0), Some((0, 0)));
}

#[test]
fn add_second_frame() {
    let mut app = TemplateApp::new_editor();
    app.add_frame();
    assert_eq!(app.frames.len(), 2);
    assert_eq!(app.current_frame, 1);
    assert!(app.frames[1].cells.iter().all(|c| c.is_none()));
    assert_eq!(app.frames[1].cells.len(), 256);
}

#[test]
fn edits_go_to_the_selected_frame() {
    let mut app = editor_with_palette();
    app.add_frame();
    drag_from_palette(&mut app, (0, 0), (1, 1));
    assert_eq!(app.frames[1].get(1, 1), Some((0, 0)));
    assert_eq!(app.frames[0].get(1, 1), None);
    app.select_frame(0);
    assert_eq!(app.current_frame, 0);
}

#[test]
fn removing_the_only_frame_is_refused() {
    let mut app = editor_with_palette();
    drag_from_palette(&mut app, (0, 0), (1, 1));
    assert_eq!(app.remove_frame(0), Err(EditError::LastFrame));
    assert_eq!(app.frames.len(), 1);
    assert_eq!(app.frames[0].get(1, 1), Some((0, 0)));
}

#[test]
fn removing_frames_moves_the_selection() {
    let mut app = TemplateApp::new_editor();
    app.add_frame();
    app.add_frame();
    assert_eq!(app.current_frame, 2);
    assert_eq!(app.remove_frame(2), Ok(()));
    assert_eq!(app.frames.len(), 2);
    assert_eq!(app.current_frame, 1);
    assert_eq!(app.remove_frame(0), Ok(()));
    assert_eq!(app.current_frame, 0);
    app.add_frame();
    app.select_frame(0);
    assert_eq!(app.remove_frame(1), Ok(()));
    assert_eq!(app.current_frame, 0);
    assert_eq!(app.frames.len(), 1);
}

#[test]
fn clear_current_frame_empties_it() {
    let mut app = editor_with_palette();
    drag_from_palette(&mut app, (0, 0), (1, 1));
    app.add_frame();
    drag_from_palette(&mut app, (0, 0), (2, 2));
    app.clear_current_frame();
    assert!(app.frames[1].cells.iter().all(|c| c.is_none()));
    assert_eq!(app.frames[0].get(1, 1), Some((0, 0)));
}

#[test]
fn toggle_animation_flips() {
    let mut app = TemplateApp::new_editor();
    app.toggle_animation();
    assert!(app.is_animating);
    app.toggle_animation();
    assert!(!app.is_animating);
}

#[test]
fn load_palette_failure_keeps_state() {
    let mut app = editor_with_palette();
    let bad = PixelImage { width: 0, height: 0, data: vec![] };
    assert!(app.load_palette("x.png".to_string(), &bad).is_err());
    assert_eq!(app.file_path.as_deref(), Some("pal.png"));
    assert_eq!(app.palette.get(0, 0), Some(RED));
}

#[test]
fn save_and_load_ref_file() {
    let mut app = editor_with_palette();
    drag_from_palette(&mut app, (0, 0), (3, 3));
    app.add_frame();
    drag_from_palette(&mut app, (1, 1), (0, 9));
    let file = app.ref_file().unwrap();
    assert_eq!(file.ref_png, "pal.png");
    let mut other = TemplateApp::new_editor();
    assert_eq!(other.load_ref_file(file, &red_corner()), Ok(()));
    assert_eq!(other.frames.len(), 2);
    assert_eq!(other.current_frame, 0);
    assert_eq!(other.frames[0].cells, app.frames[0].cells);
    assert_eq!(other.frames[1].cells, app.frames[1].cells);
    assert_eq!(other.file_path.as_deref(), Some("pal.png"));
    assert_eq!(other.frames[0].resolve(&other.palette, 3, 3), Some(RED));
}

#[test]
fn no_ref_file_without_palette() {
    let app = TemplateApp::new_editor();
    assert!(app.ref_file().is_none());
}

#[test]
fn load_ref_file_errors() {
    let mut app = TemplateApp::new_editor();
    let bad = PxRefFile { ref_png: "p.png".to_string(), ref_matrix: vec![] };
    assert_eq!(app.load_ref_file(bad, &red_corner()), Err(LoadError::Format));
    let frames = vec![Frame::empty()];
    let good = PxRefFile::from_frames("p.png".to_string(), &frames);
    let no_pixels = PixelImage { width: 0, height: 0, data: vec![] };
    assert_eq!(app.load_ref_file(good, &no_pixels), Err(LoadError::Decode));
    assert!(app.file_path.is_none());
}

#[test]
fn checkerboard_under_empty_cells() {
    assert_eq!(get_checkerboard(4, 4), Checker::Light);
}

#[test]
fn cells_under_positions_outside_the_grid() {
    assert_eq!(pxref::cell_under(Pos { x: -50, y: 40 }, 16), None);
    assert_eq!(pxref::cell_under(Pos { x: 10, y: 40 }, 16), None);
    assert_eq!(pxref::cell_under(Pos { x: 20, y: 31 }, 16), None);
    assert_eq!(pxref::cell_under(Pos { x: 272, y: 40 }, 16), None);
    assert_eq!(pxref::cell_under(Pos { x: 16 + 16 * 15 + 3, y: 32 + 16 * 2 }, 16), Some((15, 2)));
    assert_eq!(pxref::cell_under(Pos { x: 288, y: 47 }, 288), Some((0, 0)));
    assert_eq!(pxref::cell_under(Pos { x: 16, y: 48 }, 16), Some((0, 1)));
}

#[test]
fn shift_outside_the_frame_clears_nothing() {
    let mut app = editor_with_palette();
    drag_from_palette(&mut app, (0, 0), (0, 3));
    let before = app.frames[0].cells.clone();
    let left = Pos { x: 10, y: 32 + 16 * 3 + 4 };
    let mut held = input(true, Some(frame_cell(0, 3)), Some(left));
    held.shift = true;
    app.handle_pointer(&held);
    assert_eq!(app.frames[0].cells, before);
    let mut click = input(false, None, Some(left));
    click.pressed = true;
    click.shift = true;
    app.handle_pointer(&click);
    assert_eq!(app.frames[0].cells, before);
}

#[test]
fn palette_release_left_of_the_frame_assigns_nothing() {
    let mut app = editor_with_palette();
    let left = Pos { x: 5, y: 40 };
    app.handle_pointer(&input(true, Some(palette_cell(0, 0)), Some(left)));
    app.handle_pointer(&input(false, None, Some(left)));
    assert!(app.frames[0].cells.iter().all(|c| c.is_none()));
    assert_eq!(app.drag.side, Side::Idle);
}

#[test]
fn press_above_the_palette_carries_nothing() {
    let mut app = editor_with_palette();
    let above = Pos { x: 290, y: 20 };
    app.handle_pointer(&input(true, Some(above), Some(frame_cell(1, 1))));
    assert_eq!(app.drag.side, Side::Palette);
    assert_eq!(app.drag.reference, None);
    app.handle_pointer(&input(false, None, Some(frame_cell(1, 1))));
    assert!(app.frames[0].cells.iter().all(|c| c.is_none()));
}

#[test]
fn ctrl_drag_from_empty_cell_changes_nothing() {
    let mut app = editor_with_palette();
    drag_from_palette(&mut app, (0, 0), (4, 4));
    let before = app.frames[0].cells.clone();
    let mut held = input(true, Some(frame_cell(1, 1)), Some(frame_cell(4, 4)));
    held.ctrl = true;
    app.handle_pointer(&held);
    let mut release = input(false, None, Some(frame_cell(4, 4)));
    release.ctrl = true;
    app.handle_pointer(&release);
    assert_eq!(app.frames[0].cells, before);
    assert_eq!(app.frames[0].get(4, 4), Some((0, 0)));
}

#[test]
fn load_ref_file_refuses_references_outside_palette() {
    let mut app = editor_with_palette();
    let mut frame = vec![vec![None; 16]; 16];
    frame[0][0] = Some((3, 20));
    let file = PxRefFile { ref_png: "p.png".to_string(), ref_matrix: vec![frame] };
    assert_eq!(app.load_ref_file(file, &red_corner()), Err(LoadError::Format));
    assert_eq!(app.file_path.as_deref(), Some("pal.png"));
}

#[test]
fn default_editor_is_idle_and_empty() {
    let app = TemplateApp::default();
    assert!(app.palette.cells.iter().all(|c| c.is_none()));
    assert_eq!(app.palette.cells.len(), 256);
    assert!(!app.is_animating);
    assert!(app.drag.start.is_none() && app.drag.end.is_none() && !app.drag.active);
    assert!(app.drag.color.is_none() && app.drag.reference.is_none());
}

#[test]
fn side_is_fixed_at_press() {
    let mut app = editor_with_palette();
    drag_from_palette(&mut app, (0, 0), (1, 1));
    let mut held = input(true, Some(frame_cell(1, 1)), Some(palette_cell(3, 3)));
    held.ctrl = true;
    app.handle_pointer(&held);
    assert_eq!(app.drag.side, Side::Frame);
    assert_eq!(app.drag.reference, Some((0, 0)));
    let mut release = input(false, None, Some(palette_cell(3, 3)));
    release.ctrl = true;
    app.handle_pointer(&release);
    assert_eq!(app.frames[0].get(1, 1), Some((0, 0)));
    assert_eq!(app.frames[0].cells.iter().filter(|c| c.is_some()).count(), 1);
}
