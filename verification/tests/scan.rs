//! Reading tickets with the camera, and showing them as codes.

use iroh_live_cli::ids::{BroadcastTicket, EndpointId};
use iroh_live_cli::qr::{QrError, QrModules, QrPixels, QR_QUIET};
use iroh_live_cli::scan::{
    camera_config, first_text, open_problem, read_problem, split_luma, Look, Luma, Next,
    Outage, ScanState, ScanView, Scanner, Verdict,
};
use iroh_live_cli::source::CaptureSource;

/// Pixels per QR module in the rendered test images.
///
/// Roughly what a camera sees of a code filling a third of a 720p frame, and
/// enough that the decoder's binarization has clean edges to lock onto.
const MODULE_PIXELS: u32 = 8;

/// Quiet zone around the rendered code, in modules. Four is what the QR standard
/// asks for, and a decoder is entitled to rely on it.
const QUIET_MODULES: u32 = 4;

/// Renders `text` as a QR code the way a camera would see one: dark modules on a
/// light background, with the quiet zone around them.
fn render(text: &str) -> Luma {
    let code = qrcode::QrCode::new(text).expect("the text fits in a QR code");
    let modules = u32::try_from(code.width()).expect("a QR code is at most 177 modules wide");
    let colors = code.to_colors();

    let side = (modules + 2 * QUIET_MODULES) * MODULE_PIXELS;
    let mut data = vec![u8::MAX; (side * side) as usize];
    for row in 0..modules {
        for column in 0..modules {
            if colors[(row * modules + column) as usize] != qrcode::Color::Dark {
                continue;
            }
            let top = (row + QUIET_MODULES) * MODULE_PIXELS;
            let left = (column + QUIET_MODULES) * MODULE_PIXELS;
            for y in top..top + MODULE_PIXELS {
                let start = (y * side + left) as usize;
                data[start..start + MODULE_PIXELS as usize].fill(0);
            }
        }
    }

    Luma { width: side, height: side, data }
}

/// Enlarges a rendered code, so that a decoder has clean edges to lock onto.
fn upscale(pixels: &QrPixels) -> Luma {
    let factor = MODULE_PIXELS as usize;
    let side = pixels.side * factor;
    let mut data = vec![u8::MAX; side * side];
    for (index, value) in pixels.gray.iter().enumerate() {
        let top = index / pixels.side * factor;
        let left = index % pixels.side * factor;
        for y in top..top + factor {
            data[y * side + left..y * side + left + factor].fill(*value);
        }
    }
    Luma { width: side as u32, height: side as u32, data }
}

/// Reads the first QR code in `image`, if it holds one.
fn decode(image: &Luma) -> Option<String> {
    let mut prepared = rqrr::PreparedImage::prepare_from_greyscale(
        image.width as usize,
        image.height as usize,
        |x, y| image.pixel(x, y),
    );
    let grids = prepared.detect_grids();
    first_text(grids.into_iter().map(|grid| grid.decode().ok().map(|read| read.1)).collect())
}

/// The text of a ticket.
fn ticket_text(name: &str) -> String {
    format!("iroh-live:{}/{name}", iroh::SecretKey::generate().public())
}

#[test]
fn a_ticket_survives_the_round_trip_through_a_qr_code() {
    let ticket = ticket_text("hello");
    let text = decode(&render(&ticket)).expect("the code is there to be found");
    assert_eq!(text, ticket);
}

#[test]
fn a_qr_code_that_is_not_a_ticket_decodes_but_does_not_parse() {
    let text = decode(&render("https://example.com")).expect("the code is still a QR code");
    assert_eq!(text, "https://example.com");
    assert_eq!(Look::judge(Some(None)), Verdict::NotATicket);
}

#[test]
fn a_picture_with_no_qr_code_in_it_finds_nothing() {
    let blank = Luma { width: 320, height: 240, data: vec![u8::MAX; 320 * 240] };
    assert!(decode(&blank).is_none());
}

/// A rendered ticket decodes back to the same ticket.
#[test]
fn a_call_ticket_survives_the_round_trip_through_the_rendered_code() {
    let ticket = ticket_text("call");
    let pixels = QrPixels::render(&ticket).expect("a ticket fits in a QR code");
    let text = decode(&upscale(&pixels)).expect("the code is there to be found");
    assert_eq!(text, ticket);
}

/// A rendered code keeps a white quiet zone around it.
#[test]
fn a_rendered_code_keeps_the_quiet_zone_a_decoder_relies_on() {
    let pixels = QrPixels::render("iroh-live:hello").expect("the text fits");
    for row in 0..pixels.side {
        for column in 0..pixels.side {
            let inside = (QR_QUIET..pixels.side - QR_QUIET).contains(&row)
                && (QR_QUIET..pixels.side - QR_QUIET).contains(&column);
            if inside {
                continue;
            }
            assert_eq!(
                pixels.gray[row * pixels.side + column],
                u8::MAX,
                "row {row}, column {column} is inside the quiet zone"
            );
        }
    }
}

/// Every module is one pixel, black where it is dark.
#[test]
fn modules_become_pixels() {
    let code = QrModules { width: 2, dark: vec![true, false, false, true] };
    let pixels = QrPixels::of(&code);
    assert_eq!(pixels.side, 10);
    let dark: Vec<usize> = (0..100).filter(|i| pixels.gray[*i] == 0).collect();
    assert_eq!(dark, vec![44, 55]);
}

#[test]
fn a_text_too_long_for_a_code_is_refused() {
    assert_eq!(QrPixels::render(&"x".repeat(8_000)), Err(QrError::DataTooLong));
}

#[test]
fn the_first_code_that_reads_is_taken() {
    assert_eq!(
        first_text(vec![None, Some("b".to_string()), Some("c".to_string())]),
        Some("b".to_string())
    );
    assert_eq!(first_text(vec![None]), None);
}

#[test]
fn the_luma_plane_comes_first() {
    let luma = split_luma(&[1, 2, 3, 4, 9, 9], 2, 2);
    assert_eq!(luma, Luma { width: 2, height: 2, data: vec![1, 2, 3, 4] });
    assert_eq!((luma.pixel(1, 0), luma.pixel(0, 1)), (2, 3));
}

#[test]
fn a_failing_camera_is_reopened_and_warned_of_once() {
    let mut scanner = Scanner::new();
    let problem = open_problem("busy");
    assert_eq!(problem, "the camera would not open: busy");
    assert_eq!(
        scanner.scan(Err(problem.clone())),
        (ScanState::Failed(problem.clone()), Next::Reopen { warn: true })
    );
    assert_eq!(scanner.scan(Err(problem)).1, Next::Reopen { warn: false });
    let ticket = BroadcastTicket::new(EndpointId { high: 1, low: 2 }, "cam".to_string());
    assert_eq!(scanner.scan(Ok(ticket.clone())), (ScanState::Found(ticket), Next::Done));
    assert_eq!(read_problem(Outage::Ended), "the camera stopped");
    assert_eq!(read_problem(Outage::Failed("x".to_string())), "the camera failed: x");
}

#[test]
fn the_scan_screen_reports() {
    let mut view = ScanView::new();
    assert_eq!(view.banner(), None);
    view.report(ScanState::NotATicket);
    assert_eq!(view.banner(), Some("that QR code is not an iroh-live ticket".to_string()));
    assert_eq!(view.ticket(), None);
    let ticket = BroadcastTicket::new(EndpointId { high: 1, low: 2 }, "cam".to_string());
    view.report(ScanState::Found(ticket.clone()));
    assert_eq!(view.banner(), Some("connecting to cam".to_string()));
    assert_eq!(view.ticket(), Some(ticket));
}

#[test]
fn looks_are_spaced_out() {
    let mut look = Look::new(100);
    assert!(look.due(100));
    look.put_off(100);
    assert!(!look.due(432));
    assert!(look.due(433));
    assert_eq!(Look::judge(None), Verdict::Nothing);
}

#[test]
fn the_scan_camera_is_a_slow_one() {
    let config = camera_config(true);
    assert_eq!(config.source, CaptureSource::Camera(None));
    assert_eq!((config.width, config.height), (Some(1280), Some(720)));
    assert_eq!(config.framerate, Some(15));
}
