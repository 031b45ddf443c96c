use embedded_graphics::pixelcolor::BinaryColor;
use embedded_graphics::prelude::Point;
use embedded_graphics::primitives::{Primitive, PrimitiveStyleBuilder, Rectangle};
use embedded_graphics::Pixel;
use ssd1680::graphics::{make_sub_image, rotation};
use ssd1680::{
    Builder, Color, Dimensions, Display, DisplayInterface, GraphicDisplay, Rotation,
    Ssd1680Error, State,
};

/// What the mock interface saw, one entry per byte or event.
#[derive(Clone, Copy, Debug, PartialEq)]
enum Transfer {
    Reset,
    Command(u8),
    Data(u8),
    BusyWait,
}

const ROWS: u16 = 3;
const COLS: u8 = 8;
const BUFFER_SIZE: usize = (ROWS * COLS as u16) as usize / 8;

struct MockInterface {
    transfers: Vec<Transfer>,
}

impl MockInterface {
    fn new() -> Self {
        MockInterface { transfers: Vec::new() }
    }
}

impl DisplayInterface for MockInterface {
    fn send_command(&mut self, command: u8) -> Result<(), Ssd1680Error> {
        self.transfers.push(Transfer::Command(command));
        Ok(())
    }

    fn send_data(&mut self, data: &[u8]) -> Result<(), Ssd1680Error> {
        for byte in data {
            self.transfers.push(Transfer::Data(*byte));
        }
        Ok(())
    }

    fn reset(&mut self) -> Result<(), Ssd1680Error> {
        self.transfers.push(Transfer::Reset);
        Ok(())
    }

    fn busy_wait(&mut self) -> Result<(), Ssd1680Error> {
        self.transfers.push(Transfer::BusyWait);
        Ok(())
    }
}

fn build_mock_display() -> Display<MockInterface> {
    let interface = MockInterface::new();
    let dimensions = Dimensions {
        rows: ROWS,
        cols: COLS,
    };

    let config = Builder::new()
        .dimensions(dimensions)
        .rotation(Rotation::Rotate270)
        .build()
        .expect("invalid config");
    Display::new(interface, config)
}

fn color_of(color: BinaryColor) -> Color {
    if color.is_on() {
        Color::White
    } else {
        Color::Black
    }
}

#[test]
fn clear_white() {
    let black_buffer = vec![0u8; BUFFER_SIZE];
    let work_buffer = vec![0u8; BUFFER_SIZE];

    let mut display = GraphicDisplay::new(build_mock_display(), black_buffer, work_buffer);
    display.clear(Color::White);

    assert_eq!(display.black_buffer(), [0xFF, 0xFF, 0xFF]);
    assert_eq!(display.work_buffer(), [0_u8; BUFFER_SIZE]);
}

#[test]
fn clear_black() {
    let black_buffer = vec![0u8; BUFFER_SIZE];
    let work_buffer = vec![0u8; BUFFER_SIZE];

    let mut display = GraphicDisplay::new(build_mock_display(), black_buffer, work_buffer);
    display.clear(Color::Black);

    assert_eq!(display.black_buffer(), [0x00, 0x00, 0x00]);
    assert_eq!(display.work_buffer(), [0_u8; BUFFER_SIZE]);
}

#[test]
fn draw_rect_white() {
    let black_buffer = vec![0u8; BUFFER_SIZE];
    let work_buffer = vec![0u8; BUFFER_SIZE];

    let mut display = GraphicDisplay::new(build_mock_display(), black_buffer, work_buffer);

    let rectangle = Rectangle::with_corners(Point::new(0, 0), Point::new(2, 2)).into_styled(
        PrimitiveStyleBuilder::new()
            .stroke_color(BinaryColor::On)
            .stroke_width(1)
            .build(),
    );
    for Pixel(point, color) in rectangle.pixels() {
        display.draw_pixel(point.x, point.y, color_of(color));
    }

    assert_eq!(display.black_buffer(), [0b11100000, 0b10100000, 0b11100000]);
    assert_eq!(display.work_buffer(), [0_u8; BUFFER_SIZE]);
}

#[test]
fn make_sub_image_creates_subset_image_with_8_pixels_per_byte_horizontally() {
    const COLS: u16 = 48; // 6 bytes
    const ROWS: u16 = 5;
    const PIXELS_PER_BYTE: u16 = 8;
    const BUFFER_SIZE: usize = ((COLS / PIXELS_PER_BYTE) * ROWS) as usize;
    let buffer: [u8; BUFFER_SIZE] = [
        0x01, 0x02, 0x03, 0x04, 0x05, 0x06, 0x11, 0x12, 0x13, 0x14, 0x15, 0x16, 0x21, 0x22,
        0x23, 0x24, 0x25, 0x36, 0x31, 0x32, 0x33, 0x34, 0x35, 0x36, 0x41, 0x42, 0x43, 0x44,
        0x45, 0x46,
    ];
    let mut work_buffer = [0_u8; BUFFER_SIZE];
    let start_x_px = 16;
    let start_y_px = 1;
    let width_px = 24;
    let height_px = 2;
    let expected_buffer = [0x13, 0x14, 0x15, 0x23, 0x24, 0x25];
    let expected_size = ((width_px / 8) * 2) as usize;
    let written = make_sub_image(
        &buffer,
        &mut work_buffer,
        (COLS / PIXELS_PER_BYTE) as u8,
        start_x_px,
        start_y_px,
        width_px,
        height_px,
    );
    let result_slice = &work_buffer[..written];
    assert_eq!(result_slice.len(), expected_size);
    assert_eq!(result_slice, expected_buffer);
}

#[test]
fn make_sub_image_leaves_rest_of_work_buffer() {
    let buffer: [u8; 6] = [1, 2, 3, 4, 5, 6];
    let mut work_buffer = [0xAA_u8; 6];
    let written = make_sub_image(&buffer, &mut work_buffer, 2, 8, 0, 8, 3);
    assert_eq!(written, 3);
    assert_eq!(work_buffer, [2, 4, 6, 0xAA, 0xAA, 0xAA]);
}

#[test]
fn rotation_formulas_give_exact_addresses() {
    // a 16 x 4 physical display
    assert_eq!(rotation(0, 0, 16, 4, Rotation::Rotate0), (0, 0x80));
    assert_eq!(rotation(9, 2, 16, 4, Rotation::Rotate0), (5, 0x40));
    assert_eq!(rotation(0, 0, 16, 4, Rotation::Rotate90), (1, 0x01));
    assert_eq!(rotation(3, 9, 16, 4, Rotation::Rotate90), (6, 0x02));
    assert_eq!(rotation(0, 0, 16, 4, Rotation::Rotate180), (7, 0x01));
    assert_eq!(rotation(9, 2, 16, 4, Rotation::Rotate180), (2, 0x02));
    assert_eq!(rotation(0, 0, 16, 4, Rotation::Rotate270), (6, 0x80));
    assert_eq!(rotation(3, 9, 16, 4, Rotation::Rotate270), (1, 0x40));
}

#[test]
fn rotation_is_a_bijection_on_a_small_display() {
    let (width, height) = (16_u32, 5_u32);
    for rot in [
        Rotation::Rotate0,
        Rotation::Rotate90,
        Rotation::Rotate180,
        Rotation::Rotate270,
    ] {
        let (vw, vh) = match rot {
            Rotation::Rotate0 | Rotation::Rotate180 => (width, height),
            Rotation::Rotate90 | Rotation::Rotate270 => (height, width),
        };
        let mut seen = vec![0u8; (width / 8 * height) as usize];
        for x in 0..vw {
            for y in 0..vh {
                let (index, bit) = rotation(x, y, width, height, rot);
                assert_eq!(bit.count_ones(), 1);
                assert_eq!(seen[index as usize] & bit, 0);
                seen[index as usize] |= bit;
            }
        }
        assert!(seen.iter().all(|b| *b == 0xFF));
    }
}

#[test]
fn set_pixel_black_clears_only_its_bit() {
    let mut display =
        GraphicDisplay::new(build_mock_display(), vec![0u8; BUFFER_SIZE], vec![0u8; BUFFER_SIZE]);
    display.clear(Color::White);
    display.set_pixel(1, 2, Color::Black);
    // rotation 270 on 8 x 3: (x, y) = (1, 2) is byte 1, bit 0x80 >> 2
    assert_eq!(display.black_buffer(), [0xFF, 0b1101_1111, 0xFF]);
    display.set_pixel(1, 2, Color::White);
    assert_eq!(display.black_buffer(), [0xFF, 0xFF, 0xFF]);
}

#[test]
fn draw_pixel_outside_is_ignored() {
    let mut display =
        GraphicDisplay::new(build_mock_display(), vec![0u8; BUFFER_SIZE], vec![0u8; BUFFER_SIZE]);
    display.draw_pixel(-1, 0, Color::White);
    display.draw_pixel(3, 0, Color::White);
    display.draw_pixel(0, 8, Color::White);
    assert_eq!(display.black_buffer(), [0, 0, 0]);
    assert_eq!(display.size(), (3, 8));
}

#[test]
fn graphic_partial_update_sends_the_window() {
    let dimensions = Dimensions { rows: 2, cols: 16 };
    let config = Builder::new().dimensions(dimensions).build().unwrap();
    let black = vec![0x10, 0x11, 0x20, 0x21];
    let mut display =
        GraphicDisplay::new(Display::new(MockInterface::new(), config), black, vec![0u8; 4]);
    assert_eq!(display.partial_update(8, 0, 8, 2), Err(Ssd1680Error::NotReady));
    display.reset().unwrap();
    assert_eq!(display.partial_update(4, 0, 8, 2), Err(Ssd1680Error::Configuration));
    let before = display.display().interface().transfers.len();
    display.partial_update(8, 0, 8, 2).unwrap();
    assert_eq!(display.work_buffer(), [0x11, 0x21, 0, 0]);
    let sent = &display.display().interface().transfers[before..];
    assert_eq!(
        sent,
        [
            Transfer::Reset,
            Transfer::Command(0x3C),
            Transfer::Data(0x80),
            Transfer::Command(0x44),
            Transfer::Data(1),
            Transfer::Data(1),
            Transfer::Command(0x45),
            Transfer::Data(0),
            Transfer::Data(0),
            Transfer::Data(1),
            Transfer::Data(0),
            Transfer::Command(0x4E),
            Transfer::Data(1),
            Transfer::Command(0x4F),
            Transfer::Data(0),
            Transfer::Data(0),
            Transfer::Command(0x24),
            Transfer::Data(0x11),
            Transfer::Data(0x21),
            Transfer::Command(0x22),
            Transfer::Data(0xCF),
            Transfer::Command(0x20),
        ]
    );
    assert_eq!(display.display().state(), State::Ready);
}

#[test]
fn graphic_update_sends_the_frame() {
    let mut display = GraphicDisplay::new(
        build_mock_display(),
        vec![0u8; BUFFER_SIZE],
        vec![0u8; BUFFER_SIZE],
    );
    assert_eq!(display.update(), Err(Ssd1680Error::NotReady));
    display.reset().unwrap();
    display.clear(Color::White);
    display.set_pixel(0, 0, Color::Black);
    let before = display.display().interface().transfers.len();
    display.update().unwrap();
    let sent = &display.display().interface().transfers[before..];
    assert_eq!(
        sent[14..18],
        [
            Transfer::Command(0x24),
            Transfer::Data(0xFF),
            Transfer::Data(0xFF),
            Transfer::Data(0x7F),
        ]
    );
    display.deep_sleep().unwrap();
    assert_eq!(display.update(), Err(Ssd1680Error::NotReady));
    assert_eq!(display.display().state(), State::Sleeping);
}

#[test]
fn scratch_buffer_may_be_longer_than_a_frame() {
    let dimensions = Dimensions { rows: 2, cols: 16 };
    let config = Builder::new().dimensions(dimensions).build().unwrap();
    let black = vec![0x10, 0x11, 0x20, 0x21];
    let mut display =
        GraphicDisplay::new(Display::new(MockInterface::new(), config), black, vec![0xEE; 10]);
    display.reset().unwrap();
    display.partial_update(0, 1, 16, 1).unwrap();
    assert_eq!(display.work_buffer(), [0x20, 0x21, 0xEE, 0xEE, 0xEE, 0xEE, 0xEE, 0xEE, 0xEE, 0xEE]);
}

#[test]
fn rotation_beyond_the_controller_limits() {
    // 320 x 400 lies outside the controller's limits but within u32
    assert_eq!(rotation(319, 399, 320, 400, Rotation::Rotate0), (39 + 40 * 399, 0x01));
    assert_eq!(rotation(0, 0, 320, 400, Rotation::Rotate180), (40 * 400 - 1, 0x01));
}

#[test]
fn try_new_checks_buffer_lengths() {
    assert!(GraphicDisplay::try_new(build_mock_display(), vec![0u8; 3], vec![0u8; 3]).is_ok());
    assert!(GraphicDisplay::try_new(build_mock_display(), vec![0u8; 3], vec![0u8; 8]).is_ok());
    for (black, work) in [(2, 3), (4, 3), (3, 2)] {
        assert_eq!(
            GraphicDisplay::try_new(build_mock_display(), vec![0u8; black], vec![0u8; work])
                .err()
                .map(|_| ()),
            Some(())
        );
    }
    let refused = GraphicDisplay::try_new(build_mock_display(), vec![0u8; 2], vec![0u8; 3]);
    assert!(matches!(refused, Err(Ssd1680Error::Configuration)));
}
