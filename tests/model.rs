use pxref::{
    get_checkerboard, has_extension, parse_png_to_matrix, render_strip, transpose, Checker,
    Color, FileError, Frame, ImportError, Palette, PixelImage, PxRefFile,
};

const RED: Color = Color { r: 255, g: 0, b: 0, a: 255 };

fn image(width: usize, height: usize, pixels: &[(usize, usize, [u8; 4])]) -> PixelImage {
    let mut data = vec![0u8; width * height * 4];
    for (x, y, px) in pixels {
        let o = 4 * (y * width + x);
        data[o..o + 4].copy_from_slice(px);
    }
    PixelImage { width, height, data }
}

#[test]
fn transpose_swaps_rows_and_columns() {
    let m = vec![vec![1, 2, 3], vec![4, 5, 6]];
    assert_eq!(transpose(m), vec![vec![1, 4], vec![2, 5], vec![3, 6]]);
}

#[test]
fn transpose_of_empty_is_empty() {
    let none: Vec<Vec<u8>> = vec![];
    assert!(transpose(none).is_empty());
    let blank_row: Vec<Vec<u8>> = vec![vec![]];
    assert!(transpose(blank_row).is_empty());
}

#[test]
fn checkerboard_alternates() {
    assert_eq!(get_checkerboard(0, 0), Checker::Light);
    assert_eq!(get_checkerboard(1, 0), Checker::Dark);
    assert_eq!(get_checkerboard(3, 5), Checker::Light);
    assert_eq!(get_checkerboard(2, 7), Checker::Dark);
}

#[test]
fn import_two_by_two_red_corner() {
    let img = image(2, 2, &[(0, 0, [255, 0, 0, 255])]);
    let p = Palette::import(&img).unwrap();
    assert_eq!(p.get(0, 0), Some(RED));
    assert_eq!(p.get(0, 1), None);
    assert_eq!(p.get(1, 0), None);
    assert_eq!(p.get(1, 1), None);
    assert_eq!(p.get(15, 15), None);
    assert_eq!(p.get(16, 0), None);
}

#[test]
fn import_makes_partial_alpha_opaque() {
    let img = image(1, 1, &[(0, 0, [10, 20, 30, 7])]);
    let p = Palette::import(&img).unwrap();
    assert_eq!(p.get(0, 0), Some(Color { r: 10, g: 20, b: 30, a: 255 }));
}

#[test]
fn import_addresses_pixels_by_column_then_row() {
    let img = image(3, 2, &[(2, 1, [1, 2, 3, 255]), (1, 0, [4, 5, 6, 255])]);
    let p = Palette::import(&img).unwrap();
    assert_eq!(p.get(2, 1), Some(Color { r: 1, g: 2, b: 3, a: 255 }));
    assert_eq!(p.get(1, 0), Some(Color { r: 4, g: 5, b: 6, a: 255 }));
    assert_eq!(p.get(1, 2), None);
    assert_eq!(p.get(0, 1), None);
}

#[test]
fn import_drops_pixels_beyond_the_grid() {
    let img = image(20, 1, &[(15, 0, [9, 9, 9, 255]), (16, 0, [8, 8, 8, 255])]);
    let p = Palette::import(&img).unwrap();
    assert_eq!(p.get(15, 0), Some(Color { r: 9, g: 9, b: 9, a: 255 }));
    assert_eq!(p.cells.iter().filter(|c| c.is_some()).count(), 1);
}

#[test]
fn import_refuses_images_without_pixels() {
    let img = PixelImage { width: 0, height: 4, data: vec![] };
    assert_eq!(Palette::import(&img).err(), Some(ImportError::Decode));
}

#[test]
fn import_refuses_bytes_that_do_not_match_the_size() {
    let img = PixelImage { width: 2, height: 2, data: vec![0; 15] };
    assert_eq!(Palette::import(&img).err(), Some(ImportError::Decode));
}

#[test]
fn parse_matrix_is_transposed_and_padded() {
    let img = image(3, 2, &[(2, 0, [1, 1, 1, 255])]);
    let m = parse_png_to_matrix(&img).unwrap();
    assert_eq!(m.len(), 16);
    assert!(m.iter().all(|column| column.len() == 16));
    assert_eq!(m[2][0], Some(Color { r: 1, g: 1, b: 1, a: 255 }));
    assert_eq!(m[0][0], None);
    assert_eq!(m[15][15], None);
    assert_eq!(m.iter().flatten().filter(|c| c.is_some()).count(), 1);
}

#[test]
fn parse_matrix_refuses_images_without_pixels() {
    let img = PixelImage { width: 3, height: 0, data: vec![] };
    assert_eq!(parse_png_to_matrix(&img).err(), Some(ImportError::Decode));
    let short = PixelImage { width: 1, height: 1, data: vec![1, 2, 3] };
    assert_eq!(parse_png_to_matrix(&short).err(), Some(ImportError::Decode));
}

#[test]
fn empty_cell_resolves_to_nothing() {
    let img = image(16, 16, &[(0, 0, [255, 0, 0, 255]), (5, 5, [0, 255, 0, 255])]);
    let p = Palette::import(&img).unwrap();
    let f = Frame::empty();
    for x in 0..16 {
        for y in 0..16 {
            assert_eq!(f.resolve(&p, x, y), None);
            assert_eq!(f.label(&p, x, y), None);
        }
    }
}

#[test]
fn reference_resolves_with_label() {
    let img = image(16, 16, &[(0, 0, [255, 0, 0, 255]), (4, 2, [0, 0, 255, 255])]);
    let p = Palette::import(&img).unwrap();
    let mut f = Frame::empty();
    f.set(3, 3, Some((0, 0)));
    f.set(1, 1, Some((4, 2)));
    f.set(2, 2, Some((7, 7)));
    f.set(6, 6, Some((40, 1)));
    assert_eq!(f.resolve(&p, 3, 3), Some(RED));
    assert_eq!(f.label(&p, 3, 3).unwrap().to_string(), "1");
    assert_eq!(f.resolve(&p, 1, 1), Some(Color { r: 0, g: 0, b: 255, a: 255 }));
    assert_eq!(f.label(&p, 1, 1), Some(2 * 16 + 4 + 1));
    assert_eq!(f.resolve(&p, 2, 2), None);
    assert_eq!(f.label(&p, 2, 2), None);
    assert_eq!(f.resolve(&p, 6, 6), None);
    assert_eq!(f.get(6, 6), Some((40, 1)));
    assert_eq!(f.get(16, 0), None);
}

#[test]
fn frame_matrix_round_trip() {
    let mut f = Frame::empty();
    f.set(1, 2, Some((3, 4)));
    let m = f.to_matrix();
    assert_eq!(m[1][2], Some((3, 4)));
    assert_eq!(m[2][1], None);
    let g = Frame::from_matrix(&m).unwrap();
    assert_eq!(g.cells, f.cells);
    let mut bad = m.clone();
    bad[5].pop();
    assert!(Frame::from_matrix(&bad).is_none());
    bad.truncate(3);
    assert!(Frame::from_matrix(&bad).is_none());
}

#[test]
fn ref_file_round_trip() {
    let mut a = Frame::empty();
    a.set(0, 0, Some((1, 1)));
    a.set(15, 3, Some((2, 9)));
    let mut b = Frame::empty();
    b.set(7, 7, Some((0, 0)));
    let frames = vec![a, b];
    let file = PxRefFile::from_frames("pal.png".to_string(), &frames);
    assert_eq!(file.ref_png, "pal.png");
    assert_eq!(file.ref_matrix.len(), 2);
    assert_eq!(file.ref_matrix[0][15][3], Some((2, 9)));
    let (path, back) = file.into_frames().unwrap();
    assert_eq!(path, "pal.png");
    assert_eq!(back.len(), 2);
    assert_eq!(back[0].cells, frames[0].cells);
    assert_eq!(back[1].cells, frames[1].cells);
}

#[test]
fn ref_file_without_frames_is_refused() {
    let file = PxRefFile { ref_png: "p.png".to_string(), ref_matrix: vec![] };
    assert_eq!(file.into_frames().err(), Some(FileError::Format));
}

#[test]
fn ref_file_with_short_frame_is_refused() {
    let file = PxRefFile { ref_png: "p.png".to_string(), ref_matrix: vec![vec![vec![None; 16]; 15]] };
    assert_eq!(file.into_frames().err(), Some(FileError::Format));
}

#[test]
fn ref_file_with_reference_outside_palette_is_refused() {
    let mut frame = vec![vec![None; 16]; 16];
    frame[2][3] = Some((16, 0));
    let file = PxRefFile { ref_png: "p.png".to_string(), ref_matrix: vec![frame] };
    assert_eq!(file.into_frames().err(), Some(FileError::Format));
}

#[test]
fn render_strip_places_frames_side_by_side() {
    let img = image(2, 1, &[(0, 0, [255, 0, 0, 255]), (1, 0, [0, 9, 0, 255])]);
    let p = Palette::import(&img).unwrap();
    let mut a = Frame::empty();
    a.set(0, 0, Some((0, 0)));
    a.set(2, 5, Some((5, 5)));
    let mut b = Frame::empty();
    b.set(3, 1, Some((1, 0)));
    let bytes = render_strip(&vec![a, b], &p);
    assert_eq!(bytes.len(), 32 * 16 * 4);
    let px = |x: usize, y: usize| {
        let o = 4 * (y * 32 + x);
        [bytes[o], bytes[o + 1], bytes[o + 2], bytes[o + 3]]
    };
    assert_eq!(px(0, 0), [255, 0, 0, 255]);
    assert_eq!(px(16 + 3, 1), [0, 9, 0, 255]);
    assert_eq!(px(2, 5), [0, 0, 0, 0]);
    assert_eq!(px(3, 1), [0, 0, 0, 0]);
    assert_eq!(bytes.iter().filter(|b| **b != 0).count(), 2 + 2);
}

#[test]
fn render_strip_of_no_frames_is_empty() {
    let p = Palette::empty();
    assert!(render_strip(&vec![], &p).is_empty());
}

#[test]
fn extension_check() {
    assert!(has_extension("a/b.png", ".png"));
    assert!(!has_extension("a/b.png.txt", ".png"));
    assert!(!has_extension("png", ".png"));
    assert!(has_extension("x.pxref", ".pxref"));
    assert!(has_extension("", ""));
}

#[test]
fn transpose_ignores_the_tail_of_longer_rows() {
    let m = vec![vec![1, 2], vec![3, 4, 5]];
    assert_eq!(transpose(m), vec![vec![1, 3], vec![2, 4]]);
}
