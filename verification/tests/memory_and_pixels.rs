use pdfiumtoppm::memory::{
    crash_is_oom, memory_limit_bytes, physical_bytes, saturating_mul_u64, statm_bytes,
    statm_page_size,
};
use pdfiumtoppm::raster::{
    convert_bgra, memory_skip_message, png_compression, reservation_plan, probe, render_buffers, settle_pixel_size, PageError,
    PngCompression,
};

#[test]
fn statm_page_count_times_page_size() {
    let mut buf = [0u8; 32];
    let text = b"12345 678 9\n";
    buf[..text.len()].copy_from_slice(text);
    assert_eq!(statm_bytes(&buf, text.len() as isize, 4096), Some(12345 * 4096));
    assert_eq!(statm_bytes(&buf, 3, 4096), Some(123 * 4096));
    assert_eq!(statm_bytes(&buf, 0, 4096), None);
    assert_eq!(statm_bytes(&buf, -1, 4096), None);
    assert_eq!(statm_bytes(&buf, 100, 1), Some(12345));
    assert_eq!(statm_bytes(b" 12", 3, 4096), None);
    // Far too many digits wrap as u64 arithmetic does.
    let long = b"99999999999999999999";
    assert_eq!(statm_bytes(long, 20, 1), Some(99999999999999999999u128 as u64));
}

#[test]
fn limits_in_bytes() {
    assert_eq!(memory_limit_bytes(4096), 4096 << 20);
    assert_eq!(memory_limit_bytes(u64::MAX), u64::MAX);
    assert_eq!(saturating_mul_u64(u64::MAX / 2, 3), u64::MAX);
    assert_eq!(statm_page_size(0), 4096);
    assert_eq!(statm_page_size(-1), 4096);
    assert_eq!(statm_page_size(16384), 16384);
    assert_eq!(physical_bytes(1 << 20, 4096), Some(1 << 32));
    assert_eq!(physical_bytes(0, 4096), None);
    assert_eq!(physical_bytes(10, -1), None);
    assert!(crash_is_oom(None, 10));
    assert!(crash_is_oom(Some(7), 10));
    assert!(!crash_is_oom(Some(6), 10));
}

#[test]
fn bgra_becomes_rgb_or_gray() {
    let bgra = [10u8, 20, 30, 255, 0, 0, 255, 0, 7];
    let mut rgb = Vec::new();
    convert_bgra(&bgra, false, &mut rgb);
    assert_eq!(rgb, vec![30, 20, 10, 255, 0, 0]);
    let mut gray = vec![99u8];
    convert_bgra(&bgra, true, &mut gray);
    let g0 = ((30u32 * 299 + 20 * 587 + 10 * 114) / 1000) as u8;
    let g1 = ((255u32 * 299) / 1000) as u8;
    assert_eq!(gray, vec![99, g0, g1]);
    let mut white = Vec::new();
    convert_bgra(&[255, 255, 255, 0], true, &mut white);
    assert_eq!(white, vec![255]);
}

#[test]
fn pixel_size_rounds_down_only_past_max_pixels() {
    assert_eq!(settle_pixel_size((1275, 1650), (1275, 1650), None), Ok((1275, 1650)));
    assert_eq!(settle_pixel_size((317, 316), (316, 315), Some(100_000)), Ok((316, 315)));
    assert_eq!(settle_pixel_size((2, 4), (1, 3), Some(8)), Ok((2, 4)));
    assert_eq!(settle_pixel_size((2, 5), (1, 4), Some(8)), Ok((1, 4)));
    assert_eq!(settle_pixel_size((0, 5), (0, 5), None), Err((0, 5)));
    assert_eq!(settle_pixel_size((1, 1), (0, 0), Some(0)), Err((0, 0)));
}

#[test]
fn buffers_and_compression() {
    let b = render_buffers(100, 50, false);
    assert_eq!((b.pixels, b.peak_bytes, b.output_bytes), (5000, 40000, 15000));
    let b = render_buffers(100, 50, true);
    assert_eq!(b.output_bytes, 5000);
    assert_eq!(png_compression(0), PngCompression::Stored);
    assert_eq!(png_compression(6), PngCompression::Deflate(6));
}

#[test]
fn probe_reserves_or_reports_memory() {
    match probe(1024) {
        Ok(v) => {
            assert!(v.is_empty());
            assert!(v.capacity() >= 1024);
        }
        Err(_) => panic!("a small reservation failed"),
    }
    match probe(usize::MAX) {
        Err(PageError::Memory(n)) => assert_eq!(n, usize::MAX),
        _ => panic!("an impossible reservation succeeded"),
    }
    let past_limit = isize::MAX as usize + 1;
    match probe(past_limit) {
        Err(PageError::Memory(n)) => assert_eq!(n, past_limit),
        _ => panic!("a reservation past isize::MAX succeeded"),
    }
    match PageError::from("could not render".to_string()) {
        PageError::Other(s) => assert_eq!(s, "could not render"),
        _ => panic!("wrong variant"),
    }
}

#[test]
fn memory_skip_is_explained_in_mib() {
    assert_eq!(memory_skip_message(3, 5 << 20), "page 3: needs about 5 MiB, over -max-memory");
    assert_eq!(memory_skip_message(10, (1 << 20) - 1), "page 10: needs about 0 MiB, over -max-memory");
}

#[test]
fn reservations_follow_the_memory_limit() {
    let sizes = render_buffers(10, 10, false);
    let p = reservation_plan(true, &sizes);
    assert_eq!((p.before_render, p.for_output), (Some(800), 300));
    let p = reservation_plan(false, &sizes);
    assert_eq!((p.before_render, p.for_output), (None, 300));
    assert!(probe(0).is_ok());
}
