use metalshade::display::blit_rows;
use metalshade::surface::HostVisibleSurface;
use metalshade::Fatal;

#[test]
fn create_reports_authoritative_stride() {
    // the returned stride is at least width * 4 and exactly what the
    // driver reported.
    let s = HostVisibleSurface::create_host_visible(640, 480, 2688).unwrap();
    assert!(s.get_row_pitch() >= 640 * 4);
    assert_eq!(s.get_row_pitch(), 2688);
    assert_eq!(s.get_frame_buffer().len(), 2688 * 480);
}

#[test]
fn create_rejects_zero_dimension() {
    assert_eq!(
        HostVisibleSurface::create_host_visible(0, 480, 2688).map(|_| ()),
        Err(Fatal::InvalidDimensions)
    );
    assert_eq!(
        HostVisibleSurface::create_host_visible(640, 0, 2688).map(|_| ()),
        Err(Fatal::InvalidDimensions)
    );
}

#[test]
fn create_rejects_short_stride() {
    assert_eq!(
        HostVisibleSurface::create_host_visible(640, 480, 640 * 4 - 1).map(|_| ()),
        Err(Fatal::InvalidDimensions)
    );
}

#[test]
fn create_rejects_oversized_allocation() {
    assert_eq!(
        HostVisibleSurface::create_host_visible(2, usize::MAX as u32, usize::MAX / 2).map(|_| ()),
        Err(Fatal::AllocationTooLarge)
    );
}

#[test]
fn frame_round_trips_through_stride() {
    // writing and reading a full frame round-trips byte for byte when the
    // stride is respected, padding bytes notwithstanding.
    let mut s = HostVisibleSurface::create_host_visible(3, 2, 16).unwrap();
    let pixels: Vec<u8> = (0u8..24).collect();
    s.write_frame(&pixels);
    assert_eq!(s.read_frame(), pixels);
    // the buffer itself is strided: row 1 starts at byte 16, not 12.
    assert_eq!(s.get_frame_buffer()[16], pixels[12]);
    assert_eq!(s.get_frame_buffer()[12], 0);
}

#[test]
fn test_pattern_checkerboard() {
    let mut s = HostVisibleSurface::create_host_visible(130, 70, 130 * 4).unwrap();
    s.fill_test_pattern();
    let buf = s.get_frame_buffer();
    let pitch = s.get_row_pitch();
    // origin cell: parity even, green in BGRA.
    assert_eq!(&buf[0..4], &[0, 255, 0, 255]);
    // x = 64 crosses into the next cell: blue.
    let off = 64 * 4;
    assert_eq!(&buf[off..off + 4], &[255, 0, 0, 255]);
    // y = 64 likewise.
    let off = 64 * pitch;
    assert_eq!(&buf[off..off + 4], &[255, 0, 0, 255]);
    // both crossed: back to green.
    let off = 64 * pitch + 64 * 4;
    assert_eq!(&buf[off..off + 4], &[0, 255, 0, 255]);
}

#[test]
fn blit_copies_rows_across_strides() {
    // 2x2 frame, source stride 12, destination stride 10.
    let mut src = vec![0u8; 24];
    for (i, b) in src.iter_mut().enumerate() {
        *b = i as u8;
    }
    let mut dst = vec![0xeeu8; 20];
    blit_rows(&mut dst, 10, &src, 12, 2, 2);
    assert_eq!(&dst[0..8], &src[0..8]);
    assert_eq!(&dst[8..10], &[0xee, 0xee]);
    assert_eq!(&dst[10..18], &src[12..20]);
    assert_eq!(&dst[18..20], &[0xee, 0xee]);
}

#[test]
fn blit_skips_rows_that_do_not_fit() {
    // the destination holds only one row: the second is skipped entirely
    // and the rest of the destination stays untouched.
    let src = vec![7u8; 24];
    let mut dst = vec![0xeeu8; 12];
    blit_rows(&mut dst, 10, &src, 12, 2, 2);
    assert_eq!(&dst[0..8], &[7u8; 8]);
    assert_eq!(&dst[8..12], &[0xee; 4]);
}
