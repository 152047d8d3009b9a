use image_editor::{EditError, FilterKind, ImageOperations, PixelBuffer};

/// A picture whose every pixel differs: pixel (x, y) is (x, y, x + 10 * y, 200).
fn gradient(width: u32, height: u32) -> PixelBuffer {
    let mut data = Vec::new();
    for y in 0..height {
        for x in 0..width {
            data.push(x as u8);
            data.push(y as u8);
            data.push((x + 10 * y) as u8);
            data.push(200);
        }
    }
    PixelBuffer::from_raw(width, height, data).unwrap()
}

fn solid(width: u32, height: u32, px: [u8; 4]) -> PixelBuffer {
    let mut data = Vec::new();
    for _ in 0..(width * height) {
        data.extend_from_slice(&px);
    }
    PixelBuffer::from_raw(width, height, data).unwrap()
}

fn pixel(b: &PixelBuffer, x: u32, y: u32) -> [u8; 4] {
    let i = ((y * b.width() + x) * 4) as usize;
    let d = b.as_bytes();
    [d[i], d[i + 1], d[i + 2], d[i + 3]]
}

fn loaded(b: PixelBuffer) -> ImageOperations {
    let mut ops = ImageOperations::new();
    ops.load_image(b);
    ops
}

#[test]
fn test_open_image() {
    let source = loaded(gradient(4, 3));
    let png = source.save().unwrap();
    let mut editor = ImageOperations::default();
    assert_eq!(editor.load_image_from_bytes(&png), Ok(()));
    assert_eq!(editor.current(), Some(&gradient(4, 3)));
    assert_eq!(editor.undo_depth(), 0);
    assert_eq!(editor.redo_depth(), 0);
}

#[test]
fn decode_garbage_fails_and_keeps_state() {
    let mut ops = loaded(gradient(2, 2));
    ops.rotate90().unwrap();
    assert_eq!(ops.load_image_from_bytes(&[1, 2, 3, 4, 5]), Err(EditError::DecodeError));
    assert_eq!(ops.current().unwrap().width(), 2);
    assert_eq!(ops.undo_depth(), 1);
}

#[test]
fn save_without_image_fails() {
    let ops = ImageOperations::new();
    assert_eq!(ops.save(), Err(EditError::NoImageLoaded));
}

#[test]
fn save_writes_png_signature() {
    let ops = loaded(solid(2, 2, [1, 2, 3, 4]));
    let png = ops.save().unwrap();
    assert_eq!(&png[0..8], &[0x89, b'P', b'N', b'G', 0x0D, 0x0A, 0x1A, 0x0A]);
}

#[test]
fn from_raw_checks_sizes() {
    assert!(PixelBuffer::from_raw(2, 2, vec![0; 16]).is_some());
    assert!(PixelBuffer::from_raw(2, 2, vec![0; 15]).is_none());
    assert!(PixelBuffer::from_raw(0, 2, vec![]).is_none());
    assert!(PixelBuffer::from_raw(2, 0, vec![]).is_none());
}

#[test]
fn rotate90_four_times_is_identity() {
    let picture = gradient(3, 2);
    let mut ops = loaded(picture.clone());
    for _ in 0..4 {
        ops.rotate90().unwrap();
    }
    assert_eq!(ops.current(), Some(&picture));
    assert_eq!(ops.undo_depth(), 4);
}

#[test]
fn rotate90_moves_pixels_clockwise() {
    let mut ops = loaded(gradient(3, 2));
    ops.rotate90().unwrap();
    let r = ops.current().unwrap();
    assert_eq!((r.width(), r.height()), (2, 3));
    // Output (x, y) comes from input (y, h - 1 - x).
    assert_eq!(pixel(r, 0, 0), [0, 1, 10, 200]);
    assert_eq!(pixel(r, 1, 0), [0, 0, 0, 200]);
    assert_eq!(pixel(r, 0, 2), [2, 1, 12, 200]);
}

#[test]
fn rotate180_and_rotate270_move_pixels() {
    let mut ops = loaded(gradient(3, 2));
    ops.rotate180().unwrap();
    let r = ops.current().unwrap();
    assert_eq!((r.width(), r.height()), (3, 2));
    assert_eq!(pixel(r, 0, 0), [2, 1, 12, 200]);
    let mut ops = loaded(gradient(3, 2));
    ops.rotate270().unwrap();
    let r = ops.current().unwrap();
    assert_eq!((r.width(), r.height()), (2, 3));
    // Output (x, y) comes from input (w - 1 - y, x).
    assert_eq!(pixel(r, 0, 0), [2, 0, 2, 200]);
    assert_eq!(pixel(r, 1, 2), [0, 1, 10, 200]);
}

#[test]
fn flips_mirror_pixels() {
    let mut ops = loaded(gradient(3, 2));
    ops.flip_vertical().unwrap();
    assert_eq!(pixel(ops.current().unwrap(), 0, 0), [0, 1, 10, 200]);
    let mut ops = loaded(gradient(3, 2));
    ops.flip_horizontal().unwrap();
    assert_eq!(pixel(ops.current().unwrap(), 0, 0), [2, 0, 2, 200]);
}

#[test]
fn flip_vertical_twice_is_identity() {
    let picture = gradient(4, 3);
    let mut ops = loaded(picture.clone());
    ops.flip_vertical().unwrap();
    assert_ne!(ops.current(), Some(&picture));
    ops.flip_vertical().unwrap();
    assert_eq!(ops.current(), Some(&picture));
}

#[test]
fn resize_to_same_size_records_nothing() {
    let picture = gradient(5, 4);
    let mut ops = loaded(picture.clone());
    assert_eq!(ops.resize(5, 4, FilterKind::Triangle), Ok(()));
    assert_eq!(ops.current(), Some(&picture));
    assert_eq!(ops.undo_depth(), 0);
}

#[test]
fn resize_changes_size_and_records() {
    let mut ops = loaded(solid(4, 4, [9, 8, 7, 255]));
    assert_eq!(ops.resize(2, 3, FilterKind::Nearest), Ok(()));
    let r = ops.current().unwrap();
    assert_eq!((r.width(), r.height()), (2, 3));
    assert_eq!(pixel(r, 1, 2), [9, 8, 7, 255]);
    assert_eq!(ops.undo_depth(), 1);
}

#[test]
fn resize_to_empty_size_fails() {
    let mut ops = loaded(gradient(2, 2));
    assert_eq!(ops.resize(0, 3, FilterKind::Lanczos3), Err(EditError::InvalidSize));
    assert_eq!(ops.undo_depth(), 0);
    assert_eq!(ops.current(), Some(&gradient(2, 2)));
}

#[test]
fn crop_whole_picture_is_identity() {
    let picture = gradient(4, 3);
    let mut ops = loaded(picture.clone());
    assert_eq!(ops.crop(0, 0, 4, 3), Ok(()));
    assert_eq!(ops.current(), Some(&picture));
    assert_eq!(ops.undo_depth(), 1);
}

#[test]
fn crop_keeps_rectangle() {
    let mut ops = loaded(gradient(4, 3));
    assert_eq!(ops.crop(1, 1, 2, 2), Ok(()));
    let r = ops.current().unwrap();
    assert_eq!((r.width(), r.height()), (2, 2));
    assert_eq!(pixel(r, 0, 0), [1, 1, 11, 200]);
    assert_eq!(pixel(r, 1, 1), [2, 2, 22, 200]);
}

#[test]
fn crop_past_right_edge_fails() {
    let picture = gradient(4, 3);
    let mut ops = loaded(picture.clone());
    ops.flip_horizontal().unwrap();
    ops.undo();
    assert_eq!(ops.crop(2, 0, 3, 1), Err(EditError::InvalidRegion));
    assert_eq!(ops.current(), Some(&picture));
    assert_eq!(ops.undo_depth(), 0);
    assert_eq!(ops.redo_depth(), 1);
}

#[test]
fn crop_empty_or_below_bottom_fails() {
    let mut ops = loaded(gradient(4, 3));
    assert_eq!(ops.crop(0, 0, 0, 1), Err(EditError::InvalidRegion));
    assert_eq!(ops.crop(0, 2, 1, 2), Err(EditError::InvalidRegion));
    assert_eq!(ops.crop(u32::MAX, 0, 2, 1), Err(EditError::InvalidRegion));
    assert_eq!(ops.undo_depth(), 0);
}

#[test]
fn brightness_saturates_colour_and_keeps_alpha() {
    let mut ops = loaded(solid(2, 2, [250, 100, 3, 77]));
    ops.brightness(10).unwrap();
    assert_eq!(pixel(ops.current().unwrap(), 1, 1), [255, 110, 13, 77]);
    let mut ops = loaded(solid(2, 2, [250, 100, 3, 77]));
    ops.brightness(-50).unwrap();
    assert_eq!(pixel(ops.current().unwrap(), 0, 1), [200, 50, 0, 77]);
    let mut ops = loaded(solid(1, 1, [0, 1, 2, 3]));
    ops.brightness(i32::MAX).unwrap();
    assert_eq!(pixel(ops.current().unwrap(), 0, 0), [255, 255, 255, 3]);
    let mut ops = loaded(solid(1, 1, [250, 251, 252, 3]));
    ops.brightness(i32::MIN).unwrap();
    assert_eq!(pixel(ops.current().unwrap(), 0, 0), [0, 0, 0, 3]);
}

#[test]
fn brighten_then_rotate_then_undo() {
    let mut ops = loaded(solid(10, 10, [255, 0, 0, 255]));
    ops.brightness(10).unwrap();
    let brightened = ops.current().unwrap().clone();
    assert_eq!(brightened, solid(10, 10, [255, 10, 10, 255]));
    ops.rotate90().unwrap();
    let (undo_before, redo_before) = (ops.undo_depth(), ops.redo_depth());
    assert!(ops.undo());
    assert_eq!(ops.current(), Some(&brightened));
    assert_eq!(ops.undo_depth(), undo_before - 1);
    assert_eq!(ops.redo_depth(), redo_before + 1);
}

#[test]
fn undo_redo_without_image_do_nothing() {
    let mut ops = ImageOperations::new();
    assert!(!ops.undo());
    assert!(!ops.redo());
    assert!(ops.current().is_none());
    assert_eq!(ops.undo_depth(), 0);
    assert_eq!(ops.redo_depth(), 0);
}

#[test]
fn operators_without_image_report_it() {
    let mut ops = ImageOperations::new();
    assert_eq!(ops.rotate90(), Err(EditError::NoImageLoaded));
    assert_eq!(ops.rotate180(), Err(EditError::NoImageLoaded));
    assert_eq!(ops.rotate270(), Err(EditError::NoImageLoaded));
    assert_eq!(ops.flip_vertical(), Err(EditError::NoImageLoaded));
    assert_eq!(ops.flip_horizontal(), Err(EditError::NoImageLoaded));
    assert_eq!(ops.brightness(5), Err(EditError::NoImageLoaded));
    assert_eq!(ops.crop(0, 0, 1, 1), Err(EditError::NoImageLoaded));
    assert_eq!(ops.resize(3, 3, FilterKind::Gaussian), Err(EditError::NoImageLoaded));
    assert_eq!(ops.apply(gradient(1, 1)), Err(EditError::NoImageLoaded));
    assert!(ops.current().is_none());
    assert_eq!(ops.undo_depth(), 0);
}

#[test]
fn undo_n_then_redo_n_restores() {
    let mut ops = loaded(gradient(3, 2));
    ops.rotate90().unwrap();
    ops.brightness(20).unwrap();
    ops.crop(0, 1, 2, 2).unwrap();
    let after = ops.current().unwrap().clone();
    for _ in 0..3 {
        assert!(ops.undo());
    }
    assert_eq!(ops.current(), Some(&gradient(3, 2)));
    assert_eq!((ops.undo_depth(), ops.redo_depth()), (0, 3));
    for _ in 0..3 {
        assert!(ops.redo());
    }
    assert_eq!(ops.current(), Some(&after));
    assert_eq!((ops.undo_depth(), ops.redo_depth()), (3, 0));
}

#[test]
fn new_edit_keeps_redo_history() {
    let mut ops = loaded(gradient(3, 2));
    ops.rotate90().unwrap();
    ops.undo();
    ops.flip_vertical().unwrap();
    assert_eq!((ops.undo_depth(), ops.redo_depth()), (1, 1));
}

#[test]
fn load_starts_history_afresh() {
    let mut ops = loaded(gradient(3, 2));
    ops.rotate90().unwrap();
    ops.rotate90().unwrap();
    ops.undo();
    ops.load_image(solid(1, 1, [1, 1, 1, 1]));
    assert_eq!((ops.undo_depth(), ops.redo_depth()), (0, 0));
    assert_eq!(ops.current(), Some(&solid(1, 1, [1, 1, 1, 1])));
}

#[test]
fn apply_records_previous_picture() {
    let mut ops = loaded(gradient(3, 2));
    assert_eq!(ops.apply(solid(1, 1, [5, 5, 5, 5])), Ok(()));
    assert_eq!(ops.undo_depth(), 1);
    ops.undo();
    assert_eq!(ops.current(), Some(&gradient(3, 2)));
}
