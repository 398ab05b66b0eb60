use kernel_bringup::text_log::{
    AsciiChar, BufferData, DisplayMode, FBPixel, FrameBuffer, NotTextMode, PaintOp, ScreenPos,
    TextLogData, TextPos, TEXT_BUFFER_LEN,
};

fn ch(c: char) -> AsciiChar {
    AsciiChar::from_char(c)
}

fn op(glyph: Option<u8>, x: u32, y: u32) -> PaintOp {
    PaintOp { glyph, pos: ScreenPos(x, y) }
}

/// A log of two columns by two lines.
fn tiny() -> TextLogData {
    TextLogData::new(12, 20).expect("two by two characters fit")
}

#[test]
fn ascii_char_keeps_ascii_and_drops_the_rest() {
    assert_eq!(ch('A'), AsciiChar(Some(65)));
    assert_eq!(ch('\n'), AsciiChar(Some(10)));
    assert_eq!(ch('\u{7f}'), AsciiChar(Some(127)));
    assert_eq!(ch('\0'), AsciiChar(None));
    assert_eq!(ch('\u{80}'), AsciiChar(None));
    assert_eq!(ch('é'), AsciiChar(None));
    assert!(ch('\n').is_line_feed());
    assert!(!ch('\r').is_line_feed());
    assert!(!AsciiChar(None).is_line_feed());
}

#[test]
fn only_printable_characters_have_a_glyph() {
    assert_eq!(ch(' ').glyph(), Some(0x20));
    assert_eq!(ch('~').glyph(), Some(0x7E));
    assert_eq!(ch('g').glyph(), Some(b'g'));
    assert_eq!(ch('\u{1f}').glyph(), None);
    assert_eq!(ch('\u{7f}').glyph(), None);
    assert_eq!(ch('\n').glyph(), None);
    assert_eq!(AsciiChar(None).glyph(), None);
    assert_eq!(AsciiChar(Some(0xC8)).glyph(), None);
    for code in 0..=255u8 {
        let expected = if (0x20..=0x7E).contains(&code) { Some(code) } else { None };
        assert_eq!(AsciiChar(Some(code)).glyph(), expected);
    }
}

#[test]
fn pixels_beside_the_display_are_passed_over() {
    let mut data = BufferData::new(4, 3).unwrap();
    assert_eq!(data.size(), (4, 3));
    assert_eq!(data.pixels.len(), 12);
    let red = FBPixel([255, 0, 0]);
    data.draw_pixel(1, 2, red);
    assert_eq!(data.pos_to_idx(ScreenPos(1, 2)), 9);
    assert_eq!(data.index(ScreenPos(1, 2)), red);
    assert_eq!(data.pixels[9], red);
    for (x, y) in [(-1, 0), (0, -1), (4, 0), (0, 3), (i32::MAX, i32::MAX), (i32::MIN, 1)] {
        data.draw_pixel(x, y, red);
    }
    assert_eq!(data.pixels.iter().filter(|p| **p == red).count(), 1);
    assert!(data.contains(ScreenPos(3, 2)));
    assert!(!data.contains(ScreenPos(4, 2)));
    assert!(!data.contains(ScreenPos(3, 3)));
}

#[test]
fn a_log_needs_room_for_a_character() {
    assert!(TextLogData::new(5, 480).is_none());
    assert!(TextLogData::new(640, 9).is_none());
    assert!(TextLogData::new(646, 480).is_none());
    let log = TextLogData::new(640, 480).unwrap();
    assert_eq!(log.chars_width(), 106);
    assert_eq!(log.chars_height(), 48);
    assert_eq!(log.text.len(), TEXT_BUFFER_LEN);
    assert_eq!(log.cursor, TextPos(0, 0));
    assert_eq!(log.pos_to_idx(TextPos(3, 2)), 215);
    assert_eq!(TextLogData::text_pos_to_screen_pos(TextPos(3, 2)), ScreenPos(18, 20));
}

#[test]
fn a_character_is_stored_painted_and_the_cursor_moves_on() {
    let mut log = TextLogData::new(640, 480).unwrap();
    assert_eq!(log.write_char(ch('A')), vec![op(Some(b'A'), 0, 0)]);
    assert_eq!(log.cursor, TextPos(1, 0));
    assert_eq!(log.write_char(ch('\u{7}')), vec![op(None, 6, 0)]);
    assert_eq!(log.text[1], AsciiChar(Some(7)));
    assert_eq!(log.write_char(ch('\n')), vec![op(None, 12, 0)]);
    assert_eq!(log.text[2], AsciiChar(Some(10)));
    assert_eq!(log.cursor, TextPos(0, 1));
    assert_eq!(log.write_char(ch('b')), vec![op(Some(b'b'), 0, 10)]);
    assert_eq!(log.text[106], AsciiChar(Some(b'b')));
}

#[test]
fn the_cursor_wraps_and_waits_past_the_last_line() {
    let mut log = tiny();
    log.write_char(ch('a'));
    assert_eq!(log.cursor, TextPos(1, 0));
    log.write_char(ch('b'));
    assert_eq!(log.cursor, TextPos(0, 1));
    log.write_char(ch('c'));
    log.write_char(ch('d'));
    assert_eq!(log.cursor, TextPos(2, 1));
    assert!(log.text_shift_required());
    log.advance_cursor();
    assert_eq!(log.cursor, TextPos(2, 1));
}

#[test]
fn the_text_scrolls_when_the_display_is_full() {
    let mut log = tiny();
    for c in ['a', 'b', 'c', 'd'] {
        log.write_char(ch(c));
    }
    let ops = log.write_char(ch('e'));
    assert_eq!(
        ops,
        vec![
            op(Some(b'c'), 0, 0),
            op(Some(b'd'), 6, 0),
            op(None, 0, 10),
            op(None, 6, 10),
            op(Some(b'e'), 0, 10),
        ]
    );
    assert_eq!(log.text[..4], [ch('c'), ch('d'), ch('e'), AsciiChar(None)]);
    assert_eq!(log.text.len(), TEXT_BUFFER_LEN);
    assert_eq!(log.cursor, TextPos(1, 1));
}

#[test]
fn a_line_feed_on_the_last_line_scrolls() {
    let mut log = tiny();
    log.write_char(ch('a'));
    log.write_char(ch('\n'));
    assert_eq!(log.cursor, TextPos(0, 1));
    log.write_char(ch('c'));
    let ops = log.write_char(ch('\n'));
    assert_eq!(
        ops,
        vec![
            op(None, 6, 10),
            op(Some(b'c'), 0, 0),
            op(None, 6, 0),
            op(None, 0, 10),
            op(None, 6, 10),
        ]
    );
    assert_eq!(log.text[..4], [ch('c'), ch('\n'), AsciiChar(None), AsciiChar(None)]);
    assert_eq!(log.cursor, TextPos(0, 1));
}

#[test]
fn a_repaint_leaves_the_rest_of_a_line_empty_after_a_line_feed() {
    let mut log = TextLogData::new(24, 20).unwrap();
    log.text[0] = ch('a');
    log.text[1] = ch('\n');
    log.text[2] = ch('x');
    log.text[3] = ch('y');
    log.text[4] = ch('b');
    log.text[7] = ch('\n');
    assert_eq!(
        log.redraw_text(),
        vec![
            op(Some(b'a'), 0, 0),
            op(None, 6, 0),
            op(None, 12, 0),
            op(None, 18, 0),
            op(Some(b'b'), 0, 10),
            op(None, 6, 10),
            op(None, 12, 10),
            op(None, 18, 10),
        ]
    );
}

#[test]
fn shifting_moves_every_line_up() {
    let mut log = TextLogData::new(24, 30).unwrap();
    for (i, c) in "abcdefghijkl".chars().enumerate() {
        log.text[i] = ch(c);
    }
    log.cursor = TextPos(4, 2);
    let ops = log.shift_text();
    assert_eq!(ops.len(), 12);
    assert_eq!(ops[0], op(Some(b'e'), 0, 0));
    assert_eq!(ops[7], op(Some(b'l'), 18, 10));
    assert_eq!(ops[8], op(None, 0, 20));
    assert_eq!(log.cursor, TextPos(0, 2));
    assert_eq!(log.text[..8], "efghijkl".chars().map(ch).collect::<Vec<_>>()[..]);
    assert!(log.text[8..].iter().all(|c| *c == AsciiChar(None)));
    assert_eq!(log.text.len(), TEXT_BUFFER_LEN);
}

#[test]
fn a_text_is_written_character_by_character() {
    let mut one = TextLogData::new(640, 480).unwrap();
    let mut other = TextLogData::new(640, 480).unwrap();
    let ops = one.write_str("ok\nµ!");
    let mut expected = Vec::new();
    for c in "ok\nµ!".chars() {
        expected.extend(other.write_char(ch(c)));
    }
    assert_eq!(ops, expected);
    assert_eq!(
        ops,
        vec![
            op(Some(b'o'), 0, 0),
            op(Some(b'k'), 6, 0),
            op(None, 12, 0),
            op(None, 0, 10),
            op(Some(b'!'), 6, 10),
        ]
    );
    assert_eq!(one.text, other.text);
    assert_eq!(one.cursor, TextPos(2, 1));
}

#[test]
fn only_a_text_log_takes_text() {
    let mut fb = FrameBuffer::text_log(640, 480).unwrap();
    assert_eq!(fb.buff_data().size(), (640, 480));
    assert_eq!(fb.write_char('x'), Ok(vec![op(Some(b'x'), 0, 0)]));
    assert_eq!(fb.write_str("y"), Ok(vec![op(Some(b'y'), 6, 0)]));
    fb.mode = DisplayMode::Graphical;
    assert_eq!(fb.write_char('x'), Err(NotTextMode));
    assert_eq!(fb.write_str("xyz"), Err(NotTextMode));
    assert!(FrameBuffer::text_log(5, 5).is_none());
}

#[test]
fn ascii_char_from_char_is_the_conversion() {
    assert_eq!(AsciiChar::from('A'), AsciiChar(Some(65)));
    assert_eq!(AsciiChar::from('\0'), AsciiChar(None));
    assert_eq!(AsciiChar::from('ß'), AsciiChar(None));
    let c: AsciiChar = '\n'.into();
    assert!(c.is_line_feed());
}

#[test]
fn a_pixel_is_changed_in_place() {
    let mut data = BufferData::new(3, 2).unwrap();
    *data.index_mut(ScreenPos(2, 1)) = FBPixel([1, 2, 3]);
    data.index_mut(ScreenPos(0, 0)).0[1] = 9;
    assert_eq!(data.pixels[5], FBPixel([1, 2, 3]));
    assert_eq!(data.pixels[0], FBPixel([0, 9, 0]));
    assert_eq!(data.index(ScreenPos(2, 1)), FBPixel([1, 2, 3]));
}

#[test]
fn pixels_are_drawn_in_order() {
    let mut data = BufferData::new(3, 2).unwrap();
    let a = FBPixel([1, 1, 1]);
    let b = FBPixel([2, 2, 2]);
    data.draw_iter(&vec![(0, 0, a), (1, 1, a), (5, 0, a), (1, 1, b), (-1, 1, b)]);
    let black = FBPixel([0, 0, 0]);
    assert_eq!(data.pixels, vec![a, black, black, black, b, black]);
}

#[test]
fn the_pixels_of_a_frame_buffer_can_be_changed() {
    let mut fb = FrameBuffer::text_log(12, 20).unwrap();
    fb.buff_data_mut().draw_pixel(11, 19, FBPixel([7, 7, 7]));
    assert_eq!(fb.buff_data().pixels[239], FBPixel([7, 7, 7]));
    assert_eq!(fb.write_char('x'), Ok(vec![op(Some(b'x'), 0, 0)]));
}
