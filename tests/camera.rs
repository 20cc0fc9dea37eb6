use ctru::cam::{
    Cam, CameraOptions, CaptureOutcome, CaptureRequest, CameraUnit, OutputFormat, Phase,
    ShutterSound, ViewSize,
};
use ctru::error::Error;
use ctru::framebuffer::rotate_image_to_screen;
use ctru::service::{Service, ServiceTable};

fn options() -> CameraOptions {
    CameraOptions {
        view_size: ViewSize::TopLcd,
        output_format: OutputFormat::Rgb565,
        noise_filter: true,
        auto_exposure: true,
        auto_white_balance: true,
        trimming: false,
    }
}

fn configured_cam(table: &mut ServiceTable) -> Cam {
    let mut cam = Cam::new(table, 0).ok().unwrap();
    assert_eq!(cam.outer_right_cam.configure(&options(), &[0; 6]), Ok(()));
    cam
}

#[test]
fn configure_applies_every_setting() {
    let mut table = ServiceTable::new();
    let cam = configured_cam(&mut table);
    let s = cam.outer_right_cam.settings();
    assert_eq!(s.view_size, Some(ViewSize::TopLcd));
    assert_eq!(s.output_format, Some(OutputFormat::Rgb565));
    assert_eq!(s.noise_filter, Some(true));
    assert_eq!(s.trimming, Some(false));
    assert_eq!(cam.outer_right_cam.phase(), Phase::Configured);
    assert_eq!(cam.inner_cam.phase(), Phase::Unconfigured);
    assert_eq!(cam.outer_right_cam.unit(), CameraUnit::OuterRight);
}

#[test]
fn configure_stops_at_first_failure() {
    let mut table = ServiceTable::new();
    let mut cam = Cam::new(&mut table, 0).ok().unwrap();
    let r = cam.inner_cam.configure(&options(), &[0, 0, -9, 0, 0, 0]);
    assert_eq!(r, Err(Error::ServiceError(-9)));
    let s = cam.inner_cam.settings();
    assert_eq!(s.view_size, Some(ViewSize::TopLcd));
    assert_eq!(s.output_format, Some(OutputFormat::Rgb565));
    assert_eq!(s.noise_filter, None);
    assert_eq!(s.auto_white_balance, None);
    assert_eq!(cam.inner_cam.phase(), Phase::Unconfigured);
}

#[test]
fn wrong_buffer_size_issues_nothing() {
    let mut table = ServiceTable::new();
    let mut cam = configured_cam(&mut table);
    let buf = vec![0u8; 400 * 240 * 2 - 1];
    let r = cam.outer_right_cam.capture(&buf, 400, 240, 300);
    assert_eq!(r, Err(Error::InvalidBufferSize));
    assert_eq!(cam.outer_right_cam.phase(), Phase::Configured);
    let r = cam.outer_right_cam.capture(&[0u8; 4], 100_000, 0, 300);
    assert_eq!(r, Err(Error::InvalidBufferSize));
    let r = cam.outer_right_cam.capture(&[], usize::MAX, usize::MAX, 300);
    assert_eq!(r, Err(Error::InvalidBufferSize));
}

#[test]
fn dimension_out_of_range() {
    let mut table = ServiceTable::new();
    let mut cam = configured_cam(&mut table);
    let r = cam.outer_right_cam.capture(&[], 0, 240, 300);
    assert_eq!(r, Err(Error::DimensionOutOfRange));
    let buf = vec![0u8; 70_000 * 2];
    let r = cam.outer_right_cam.capture(&buf, 70_000, 1, 300);
    assert_eq!(r, Err(Error::DimensionOutOfRange));
    assert_eq!(cam.outer_right_cam.phase(), Phase::Configured);
}

#[test]
fn capture_timeout_and_failure() {
    let mut table = ServiceTable::new();
    let mut cam = configured_cam(&mut table);
    let buf = vec![0u8; 8 * 2 * 2];
    assert!(cam.outer_right_cam.capture(&buf, 8, 2, 50).is_ok());
    assert_eq!(cam.outer_right_cam.phase(), Phase::Capturing);
    assert_eq!(cam.outer_right_cam.complete_capture(CaptureOutcome::TimedOut), Err(Error::CaptureTimeout));
    assert_eq!(cam.outer_right_cam.phase(), Phase::Configured);
    assert!(cam.outer_right_cam.capture(&buf, 8, 2, 50).is_ok());
    assert_eq!(
        cam.outer_right_cam.complete_capture(CaptureOutcome::Failed(-3)),
        Err(Error::ServiceError(-3))
    );
}

#[test]
fn shutter_sound_reports_status() {
    let mut table = ServiceTable::new();
    let cam = Cam::new(&mut table, 0).ok().unwrap();
    assert_eq!(cam.play_shutter_sound(ShutterSound::Normal, 0), Ok(()));
    assert_eq!(cam.play_shutter_sound(ShutterSound::Movie, 12), Err(Error::ServiceError(12)));
    cam.release(&mut table);
    assert!(!table.is_live(Service::Camera));
}

#[test]
fn capture_and_show_top_screen_image() {
    let mut table = ServiceTable::new();
    let mut cam = configured_cam(&mut table);
    let mut buf = vec![0u8; 400 * 240 * 2];
    let req = cam.outer_right_cam.capture(&buf, 400, 240, 300);
    assert_eq!(
        req,
        Ok(CaptureRequest { unit: CameraUnit::OuterRight, width: 400, height: 240, timeout_ms: 300 })
    );
    buf[0] = 0xAB;
    buf[1] = 0xCD;
    assert_eq!(cam.outer_right_cam.complete_capture(CaptureOutcome::Received), Ok(()));
    assert_eq!(buf.len(), 192000);
    let mut screen = vec![0u8; 192000];
    rotate_image_to_screen(&buf, &mut screen, 400, 240);
    assert_eq!((screen[478], screen[479]), (0xAB, 0xCD));
    cam.release(&mut table);
}
