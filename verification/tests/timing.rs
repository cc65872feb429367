use std::io::Cursor;
use yasc_core::song_player::governor::SongTimer;
use yasc_core::song_player::lanes::{ImageDecodeError, LanesInitRequest};
use yasc_core::song_player::song_timer::SongTime;

#[test]
fn song_time_arithmetic() {
    assert_eq!(SongTime(3).add(SongTime(4)), SongTime(7));
    assert_eq!(SongTime(3).sub(SongTime(4)), SongTime(-1));
    assert!(SongTime(3) < SongTime(4));
}

#[test]
fn timer_reports_nothing_until_started() {
    let timer = SongTimer::unstarted();
    assert_eq!(timer.get_current_song_time(), None);
    assert_eq!(timer.get_freq(), None);
}

#[test]
fn timer_counts_ticks() {
    let mut timer = SongTimer::unstarted();
    timer.start(1000);
    assert_eq!(timer.get_freq(), Some(1000));
    assert_eq!(timer.get_current_song_time(), Some(SongTime(0)));
    timer.increment();
    timer.increment();
    timer.increment();
    assert_eq!(timer.get_current_song_time(), Some(SongTime(3)));
    timer.reset();
    assert_eq!(timer.get_current_song_time(), Some(SongTime(0)));
    timer.increment();
    timer.stop_and_reset();
    assert_eq!(timer.get_current_song_time(), None);
    assert_eq!(timer.get_freq(), None);
}

#[test]
fn lane_image_decodes_rgba() {
    let mut png = Vec::new();
    let img = image::RgbaImage::from_pixel(2, 3, image::Rgba([1, 2, 3, 4]));
    img.write_to(&mut Cursor::new(&mut png), image::ImageFormat::Png)
        .unwrap();
    let req = LanesInitRequest::new(&png).unwrap();
    assert_eq!(req.lane_image_width, 2);
    assert_eq!(req.lane_image_height, 3);
    assert_eq!(req.lane_image.len(), 24);
    assert_eq!(&req.lane_image[0..4], &[1, 2, 3, 4]);
    let lanes = req.handle();
    assert_eq!(lanes.texture_width, 2);
    assert_eq!(lanes.texture_height, 3);
}

#[test]
fn lane_image_rejects_garbage() {
    assert_eq!(
        LanesInitRequest::new(&[0, 1, 2, 3]),
        Err(ImageDecodeError::InvalidImage)
    );
}
