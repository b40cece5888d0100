use ssd1327_driver::bus::{BusWrite, Command, ADDR, COMMAND_MODE, DATA_MODE};
use ssd1327_driver::diff::{changed_span, diff_window, index_in_window, span_window, Window};
use ssd1327_driver::pixels::WHITE;
use ssd1327_driver::ssd1327::{Display, DisplayError, PanelState, SSD1327};

fn ready_panel() -> SSD1327 {
    let mut d = SSD1327::new();
    d.begin().unwrap();
    d.take_pending();
    d
}

fn commands(bytes: &[u8]) -> Vec<BusWrite> {
    bytes.iter().map(|b| BusWrite { selector: 0x00, payload: *b }).collect()
}

fn data(bytes: &[u8]) -> Vec<BusWrite> {
    bytes.iter().map(|b| BusWrite { selector: 0x40, payload: *b }).collect()
}

const INIT: [u8; 37] = [
    0xAE, 0x15, 0x00, 0x7F, 0x75, 0x00, 0x7F, 0x81, 0x80, 0xA0, 0x51, 0x40, 0x00, 0xD3, 0x00, 0xA4,
    0xA8, 0x7F, 0xB1, 0xF1, 0xB3, 0x00, 0xAB, 0x01, 0xB6, 0x0F, 0xBE, 0x0F, 0xBC, 0x08, 0xD5, 0x62,
    0xFD, 0x12, 0xA0, 0x51, 0xAF,
];

#[test]
fn bus_constants() {
    assert_eq!(ADDR, 0x3D);
    assert_eq!(COMMAND_MODE, 0x00);
    assert_eq!(DATA_MODE, 0x40);
}

#[test]
fn command_opcodes() {
    assert_eq!(Command::InverseDisplay.opcode(), 0xA7);
    assert_eq!(Command::NormalDisplay.opcode(), 0xA6);
    assert_eq!(Command::Off.opcode(), 0xAE);
    assert_eq!(Command::On.opcode(), 0xAF);
    assert_eq!(Command::SetContrastLevel.opcode(), 0x81);
    assert_eq!(Command::ActivateScroll.opcode(), 0x2F);
    assert_eq!(Command::ResumeToGDDRAM.opcode(), 0xA4);
    assert_eq!(Command::SetDisplayOffset.opcode(), 0xD3);
    assert_eq!(Command::SetDisplayClockDiv.opcode(), 0xB3);
    assert_eq!(Command::SetMultiplex.opcode(), 0xA8);
    assert_eq!(Command::SetLowColumn.opcode(), 0x00);
    assert_eq!(Command::SetHighColumn.opcode(), 0x10);
    assert_eq!(Command::SetStartLine.opcode(), 0x40);
    assert_eq!(Command::SegRemap.opcode(), 0xA0);
    assert_eq!(Command::SetVerticalScrollArea.opcode(), 0xA3);
    assert_eq!(Command::RightHorizontalScroll.opcode(), 0x26);
    assert_eq!(Command::LeftHorizontalScroll.opcode(), 0x27);
    assert_eq!(Command::VerticalAndRightHorizontalScroll.opcode(), 0x29);
    assert_eq!(Command::VerticalAndLeftHorizontalScroll.opcode(), 0x2A);
    assert_eq!(Command::SetColumnAddress.opcode(), 0x15);
    assert_eq!(Command::SetRowAddress.opcode(), 0x75);
    assert_eq!(Command::SetPhaseLength.opcode(), 0xB1);
}

#[test]
fn new_driver_is_blank_and_silent() {
    let mut d = SSD1327::new();
    assert_eq!(d.state(), PanelState::Uninitialized);
    assert!(d.buffer().iter().all(|b| *b == 0));
    assert!(d.previous_buffer().iter().all(|b| *b == 0));
    assert!(d.take_pending().is_empty());
}

#[test]
fn begin_queues_the_init_sequence() {
    let mut d = SSD1327::new();
    assert_eq!(d.begin(), Ok(()));
    assert_eq!(d.state(), PanelState::Ready);
    assert_eq!(d.take_pending(), commands(&INIT));
    assert!(d.take_pending().is_empty());
}

#[test]
fn begin_clears_both_buffers() {
    let mut d = ready_panel();
    d.draw_rectangle(0, 0, 100, 100, WHITE, true).unwrap();
    d.display().unwrap();
    d.draw_pixel(1, 1, WHITE).unwrap();
    d.begin().unwrap();
    assert!(d.buffer().iter().all(|b| *b == 0));
    assert!(d.previous_buffer().iter().all(|b| *b == 0));
}

#[test]
fn initialize_sets_normal_display_first() {
    let mut d = SSD1327::new();
    assert_eq!(d.initialize(), Ok(()));
    let mut expected = commands(&[0xA6]);
    expected.extend(commands(&INIT));
    assert_eq!(d.take_pending(), expected);
    assert_eq!(d.state(), PanelState::Ready);
}

#[test]
fn send_command_and_data_use_their_selectors() {
    let mut d = SSD1327::new();
    d.send_command(0x12);
    d.send_data(0x34);
    d.send_command(0x56);
    assert_eq!(
        d.take_pending(),
        vec![
            BusWrite { selector: 0x00, payload: 0x12 },
            BusWrite { selector: 0x40, payload: 0x34 },
            BusWrite { selector: 0x00, payload: 0x56 },
        ]
    );
}

#[test]
fn invert_picks_its_command() {
    let mut d = SSD1327::new();
    d.invert(true);
    d.invert(false);
    assert_eq!(d.invert_display(true), Ok(()));
    assert_eq!(d.invert_display(false), Ok(()));
    assert_eq!(d.take_pending(), commands(&[0xA7, 0xA6, 0xA7, 0xA6]));
}

#[test]
fn window_is_six_commands() {
    let mut d = SSD1327::new();
    d.display_window(1, 2, 3, 4);
    assert_eq!(d.take_pending(), commands(&[0x15, 1, 3, 0x75, 2, 4]));
}

#[test]
fn deinitialize_switches_off() {
    let mut d = ready_panel();
    assert_eq!(d.deinitialize(), Ok(()));
    assert_eq!(d.take_pending(), commands(&[0xAE]));
    assert_eq!(d.state(), PanelState::Off);
    assert_eq!(d.display(), Err(DisplayError::NotInitialized));
    assert_eq!(d.display_all(), Err(DisplayError::NotInitialized));
    assert_eq!(d.update(), Err(DisplayError::NotInitialized));
    assert!(d.take_pending().is_empty());
    d.begin().unwrap();
    assert_eq!(d.state(), PanelState::Ready);
}

#[test]
fn flushing_needs_a_ready_panel() {
    let mut d = SSD1327::new();
    assert_eq!(d.display(), Err(DisplayError::NotInitialized));
    assert_eq!(d.display_all(), Err(DisplayError::NotInitialized));
    assert_eq!(d.update(), Err(DisplayError::NotInitialized));
    assert!(d.take_pending().is_empty());
}

#[test]
fn full_flush_sends_every_byte() {
    let mut d = ready_panel();
    d.draw_pixel(0, 0, 0x0A).unwrap();
    d.draw_pixel(127, 127, 0x05).unwrap();
    assert_eq!(d.display_all(), Ok(()));
    let out = d.take_pending();
    assert_eq!(out.len(), 6 + 8192);
    assert_eq!(out[..6].to_vec(), commands(&[0x15, 0, 127, 0x75, 0, 127]));
    assert_eq!(out[6], BusWrite { selector: 0x40, payload: 0xA0 });
    assert_eq!(out[6 + 8191], BusWrite { selector: 0x40, payload: 0x05 });
    assert!(out[7..6 + 8191].iter().all(|w| *w == BusWrite { selector: 0x40, payload: 0 }));
    assert_eq!(d.buffer()[0], 0xA0);
    assert_eq!(d.update(), Ok(()));
    assert_eq!(d.take_pending(), out);
}

#[test]
fn clear_then_flush_gives_the_fallback_window() {
    let mut d = ready_panel();
    d.draw_rectangle(3, 3, 90, 90, WHITE, true).unwrap();
    SSD1327::clear(&mut d);
    assert!(d.buffer().iter().all(|b| *b == 0));
    assert_eq!(d.buffer(), d.previous_buffer());
    assert_eq!(changed_span(d.buffer(), d.previous_buffer()), (0, 8192));
    assert_eq!(
        diff_window(d.buffer(), d.previous_buffer()),
        Window { start_column: 0, start_row: 0, end_column: 0, end_row: 64 }
    );
    assert_eq!(d.display(), Ok(()));
    let out = d.take_pending();
    assert_eq!(out[..6].to_vec(), commands(&[0x15, 0, 0, 0x75, 0, 64]));
    assert_eq!(out[6..].to_vec(), data(&[0u8; 64]));
}

#[test]
fn trait_clear_is_the_same_clear() {
    let mut d = ready_panel();
    d.draw_pixel(3, 3, WHITE).unwrap();
    assert_eq!(Display::clear(&mut d), Ok(()));
    assert!(d.buffer().iter().all(|b| *b == 0));
    assert!(d.previous_buffer().iter().all(|b| *b == 0));
    assert_eq!(d.state(), PanelState::Ready);
}

#[test]
fn one_changed_byte_is_one_data_write() {
    let mut d = ready_panel();
    d.draw_pixel(16, 3, WHITE).unwrap();
    assert_eq!(d.buffer()[128 + 72], 0xF0);
    assert_eq!(changed_span(d.buffer(), d.previous_buffer()), (200, 201));
    let w = diff_window(d.buffer(), d.previous_buffer());
    assert_eq!((w.start_column, w.start_row), (72, 1));
    assert_eq!((w.end_column, w.end_row), (73, 1));
    assert_eq!(d.display(), Ok(()));
    let out = d.take_pending();
    assert_eq!(out[..6].to_vec(), commands(&[0x15, 72, 73, 0x75, 1, 1]));
    assert_eq!(out[6..].to_vec(), data(&[0xF0]));
}

#[test]
fn partial_flush_zeroes_the_buffer_and_keeps_a_snapshot() {
    let mut d = ready_panel();
    d.draw_text(4, 4, "Forest Fighters", WHITE).unwrap();
    let drawn = d.buffer().clone();
    assert!(drawn.iter().any(|b| *b != 0));
    assert_eq!(d.display(), Ok(()));
    assert!(d.buffer().iter().all(|b| *b == 0));
    assert_eq!(*d.previous_buffer(), drawn);
    assert_eq!(d.buffer().len(), 8192);
}

#[test]
fn partial_flush_sends_only_columns_inside_the_window() {
    let mut d = ready_panel();
    d.draw_pixel(20, 0, 0x1).unwrap();
    d.draw_pixel(60, 4, 0x2).unwrap();
    assert_eq!(d.buffer()[10], 0x10);
    assert_eq!(d.buffer()[286], 0x20);
    assert_eq!(changed_span(d.buffer(), d.previous_buffer()), (10, 287));
    assert_eq!(d.display(), Ok(()));
    let out = d.take_pending();
    assert_eq!(out[..6].to_vec(), commands(&[0x15, 10, 31, 0x75, 0, 2]));
    let mut payload = vec![0u8; 22 + 22 + 21];
    payload[0] = 0x10;
    payload[22 + 22 + 20] = 0x20;
    assert_eq!(out[6..].to_vec(), data(&payload));
}

#[test]
fn second_flush_compares_with_what_was_sent() {
    let mut d = ready_panel();
    d.draw_pixel(16, 3, WHITE).unwrap();
    d.display().unwrap();
    d.take_pending();
    d.draw_pixel(16, 3, WHITE).unwrap();
    d.draw_pixel(18, 3, WHITE).unwrap();
    assert_eq!(changed_span(d.buffer(), d.previous_buffer()), (201, 202));
    d.display().unwrap();
    let out = d.take_pending();
    assert_eq!(out[..6].to_vec(), commands(&[0x15, 73, 74, 0x75, 1, 1]));
    assert_eq!(out[6..].to_vec(), data(&[0xF0]));
}

#[test]
fn span_of_equal_and_unequal_buffers() {
    let a = vec![1u8, 2, 3, 4, 5];
    assert_eq!(changed_span(&a, &a), (0, 5));
    assert_eq!(changed_span(&a, &vec![1, 2, 9, 4, 5]), (2, 3));
    assert_eq!(changed_span(&a, &vec![0, 2, 3, 4, 0]), (0, 5));
    assert_eq!(changed_span(&a, &vec![1, 0, 3, 0, 5]), (1, 4));
    assert_eq!(changed_span(&Vec::new(), &Vec::new()), (0, 0));
}

#[test]
fn window_uses_a_stride_of_128() {
    assert_eq!(
        span_window(200, 201),
        Window { start_column: 72, start_row: 1, end_column: 73, end_row: 1 }
    );
    assert_eq!(
        span_window(127, 128),
        Window { start_column: 127, start_row: 0, end_column: 0, end_row: 1 }
    );
    let w = Window { start_column: 10, start_row: 0, end_column: 31, end_row: 2 };
    assert!(index_in_window(&w, 10));
    assert!(index_in_window(&w, 128 + 31));
    assert!(!index_in_window(&w, 9));
    assert!(!index_in_window(&w, 32));
    assert!(!index_in_window(&w, 3 * 128 + 10));
}

#[test]
fn colour_fill_goes_by_byte_index_parity() {
    let mut d = ready_panel();
    SSD1327::clear_colour(&mut d, 0x0A);
    for (i, b) in d.buffer().iter().enumerate() {
        assert_eq!(*b, if i % 2 == 0 { 0xA0 } else { 0x0A });
    }
    assert_eq!(d.buffer(), d.previous_buffer());
    assert_eq!(d.pixel(0, 0), Some(0x0A));
    assert_eq!(d.pixel(1, 0), Some(0));
    assert_eq!(d.pixel(2, 0), Some(0));
    assert_eq!(d.pixel(3, 0), Some(0x0A));
}

#[test]
fn colour_fill_ors_and_keeps_high_bits_at_even_bytes_only() {
    let mut d = ready_panel();
    d.draw_pixel(1, 0, 0x1).unwrap();
    d.draw_pixel(2, 0, 0x1).unwrap();
    assert_eq!(Display::clear_colour(&mut d, 0x34), Ok(()));
    assert_eq!(d.buffer()[0], 0x41);
    assert_eq!(d.buffer()[1], 0x14);
    assert_eq!(d.buffer()[2], 0x40);
    assert_eq!(d.buffer()[3], 0x04);
    assert_eq!(d.buffer(), d.previous_buffer());
    assert_eq!(changed_span(d.buffer(), d.previous_buffer()), (0, 8192));
}

#[test]
fn take_pending_keeps_order_and_empties_the_queue() {
    let mut d = ready_panel();
    d.invert(true);
    d.display_window(0, 0, 1, 1);
    let out = d.take_pending();
    assert_eq!(out, commands(&[0xA7, 0x15, 0, 1, 0x75, 0, 1]));
    assert!(d.take_pending().is_empty());
    assert_eq!(d.state(), PanelState::Ready);
}
