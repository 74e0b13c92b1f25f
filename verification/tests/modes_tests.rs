use metalshade::display::{DisplayError, ModeTable};
use metalshade::modes::{
    dedup_adjacent_resolutions, sort_modes, DisplayMode, ModeError, ResolutionManager,
};
use metalshade::platform::{map_raw_key, map_scancode, windowed_size_for_key, EventQueue, KeyEvent};
use metalshade::texture::generate_checkerboard;

fn mode(w: u32, h: u32, hz: u64) -> DisplayMode {
    DisplayMode { width: w, height: h, refresh_millihz: hz * 1000 }
}

#[test]
fn sort_orders_by_pixels_then_refresh() {
    let sorted = sort_modes(vec![
        mode(1920, 1080, 60),
        mode(1280, 720, 60),
        mode(1920, 1080, 120),
    ]);
    assert_eq!(sorted[0], mode(1280, 720, 60));
    assert_eq!(sorted[1], mode(1920, 1080, 120));
    assert_eq!(sorted[2], mode(1920, 1080, 60));
}

#[test]
fn dedup_keeps_highest_refresh() {
    let sorted = sort_modes(vec![
        mode(1920, 1080, 60),
        mode(1280, 720, 60),
        mode(1920, 1080, 120),
    ]);
    let deduped = dedup_adjacent_resolutions(&sorted);
    assert_eq!(deduped, vec![mode(1280, 720, 60), mode(1920, 1080, 120)]);
}

#[test]
fn manager_selects_nearest_native_aspect_width() {
    // native aspect is that of the largest mode (16:9 here); key 2 targets
    // width 1280.
    let m = ResolutionManager::new(vec![
        mode(1024, 768, 60),
        mode(1280, 720, 60),
        mode(1920, 1080, 60),
        mode(3840, 2160, 60),
    ]);
    assert!(m.current_index.is_none());
    let i = m.select_for_key(2).unwrap();
    assert_eq!(m.modes[i], mode(1280, 720, 60));
    // key 5 targets the native width itself.
    let i = m.select_for_key(5).unwrap();
    assert_eq!(m.modes[i], mode(3840, 2160, 60));
}

#[test]
fn manager_spreads_other_aspect_keys() {
    let m = ResolutionManager::new(vec![
        mode(1024, 768, 60),
        mode(1600, 1200, 60),
        mode(3840, 2160, 60),
    ]);
    // keys 6 and 9 land on the first and last other-aspect modes.
    let first = m.select_for_key(6).unwrap();
    let last = m.select_for_key(9).unwrap();
    assert_eq!(m.modes[first], mode(1024, 768, 60));
    assert_eq!(m.modes[last], mode(1600, 1200, 60));
}

#[test]
fn manager_errors() {
    let empty = ResolutionManager::new(vec![]);
    assert_eq!(empty.select_for_key(1), Err(ModeError::NoModeAvailable));

    let only_native = ResolutionManager::new(vec![mode(1920, 1080, 60)]);
    assert_eq!(only_native.select_for_key(6), Err(ModeError::NoOtherAspectMode));

    let only_other = ResolutionManager::new(vec![mode(1600, 1200, 60), mode(1024, 768, 60)]);
    // the largest mode defines the native aspect, so some native mode
    // always exists; keys 1-5 find it.
    assert!(only_other.select_for_key(1).is_ok());
}

#[test]
fn manager_confirm_and_restore() {
    let mut m = ResolutionManager::new(vec![mode(1920, 1080, 60), mode(1280, 720, 60)]);
    let i = m.select_for_key(3).unwrap();
    m.confirm_mode(i);
    assert_eq!(m.current_index, Some(i));
    m.restore();
    assert!(m.current_index.is_none());
}

#[test]
fn mode_table_switches_and_reports() {
    let mut t = ModeTable::new(vec![(1920, 1080), (1280, 720)]).unwrap();
    assert_eq!(t.get_resolution(), (1920, 1080));
    assert_eq!(t.set_mode(2), Ok((1280, 720)));
    assert_eq!(t.get_resolution(), (1280, 720));
}

#[test]
fn mode_table_out_of_range_keeps_mode() {
    // an index out of range is reported and the previous mode persists.
    let mut t = ModeTable::new(vec![(1920, 1080), (1280, 720)]).unwrap();
    assert_eq!(t.set_mode(3), Err(DisplayError::ModeOutOfRange));
    assert_eq!(t.get_resolution(), (1920, 1080));
}

#[test]
fn mode_table_requires_a_mode() {
    assert!(matches!(ModeTable::new(vec![]), Err(DisplayError::NoModeAvailable)));
}

#[test]
fn raw_key_mapping() {
    assert_eq!(map_raw_key(1, 105, 1), Some(KeyEvent::Left));
    assert_eq!(map_raw_key(1, 106, 1), Some(KeyEvent::Right));
    assert_eq!(map_raw_key(1, 33, 1), Some(KeyEvent::Fullscreen));
    assert_eq!(map_raw_key(1, 1, 1), Some(KeyEvent::Quit));
    assert_eq!(map_raw_key(1, 16, 1), Some(KeyEvent::Quit));
    assert_eq!(map_raw_key(1, 3, 1), Some(KeyEvent::Resolution(2)));
    // releases and non-key events map to nothing.
    assert_eq!(map_raw_key(1, 105, 0), None);
    assert_eq!(map_raw_key(2, 105, 1), None);
    assert_eq!(map_raw_key(1, 30, 1), None);
}

#[test]
fn scancode_mapping() {
    assert_eq!(map_scancode(0x4b, true), Some(KeyEvent::Left));
    assert_eq!(map_scancode(0x4d, true), Some(KeyEvent::Right));
    assert_eq!(map_scancode(0x21, true), Some(KeyEvent::Fullscreen));
    assert_eq!(map_scancode(0x01, true), Some(KeyEvent::Quit));
    assert_eq!(map_scancode(0x10, true), Some(KeyEvent::Quit));
    assert_eq!(map_scancode(0x05, true), Some(KeyEvent::Resolution(4)));
    assert_eq!(map_scancode(0x4b, false), None);
    assert_eq!(map_scancode(0x1e, true), None);
}

#[test]
fn windowed_sizes() {
    assert_eq!(windowed_size_for_key(1), Some((1024, 576)));
    assert_eq!(windowed_size_for_key(3), Some((1920, 1080)));
    assert_eq!(windowed_size_for_key(5), Some((3840, 2160)));
    assert_eq!(windowed_size_for_key(6), None);
}

#[test]
fn checkerboard_pixels() {
    let tex = generate_checkerboard(64, 64, 32, (200, 180, 160, 255), (50, 60, 80, 255));
    assert_eq!(tex.len(), 64 * 64 * 4);
    // origin cell uses the even color.
    assert_eq!(&tex[0..4], &[200, 180, 160, 255]);
    // crossing x = 32 flips the parity.
    let off = 32 * 4;
    assert_eq!(&tex[off..off + 4], &[50, 60, 80, 255]);
    // crossing both flips back.
    let off = (33 * 64 + 32) * 4;
    assert_eq!(&tex[off..off + 4], &[200, 180, 160, 255]);
}

#[test]
fn event_queue_is_fifo() {
    let mut q = EventQueue::new();
    assert_eq!(q.poll_event(), None);
    q.push_event(KeyEvent::Left);
    q.push_event(KeyEvent::Resolution(3));
    q.push_event(KeyEvent::Quit);
    assert_eq!(q.poll_event(), Some(KeyEvent::Left));
    assert_eq!(q.poll_event(), Some(KeyEvent::Resolution(3)));
    assert_eq!(q.poll_event(), Some(KeyEvent::Quit));
    assert_eq!(q.poll_event(), None);
}
