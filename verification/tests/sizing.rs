use pdfiumtoppm::memory::resolve_max_memory;
use pdfiumtoppm::pages::page_range;

#[test]
fn page_range_clamps_like_pdftoppm() {
    assert_eq!(page_range(12, None, None, None), Ok((1, 12)));
    assert_eq!(page_range(12, Some(0), None, None), Ok((1, 12)));
    assert_eq!(page_range(12, Some(3), Some(100), None), Ok((3, 12)));
    assert_eq!(page_range(12, Some(3), None, Some(4)), Ok((3, 6)));
    assert_eq!(page_range(12, Some(3), Some(4), Some(10)), Ok((3, 4)));
    assert_eq!(page_range(12, Some(3), None, Some(u32::MAX)), Ok((3, 12)));
    assert_eq!(
        page_range(12, Some(u32::MAX), None, Some(1)),
        Err((u32::MAX, 12))
    );
    assert_eq!(page_range(12, Some(20), None, None), Err((20, 12)));
    assert_eq!(page_range(12, Some(5), Some(3), None), Err((5, 3)));
    assert_eq!(page_range(0, None, None, None), Err((1, 0)));
}

#[test]
fn default_max_memory_is_4g_or_half_ram() {
    const G: u64 = 1 << 30;
    // This machine can set a memory limit (Unix).
    let supported = true;
    assert_eq!(resolve_max_memory(Some(0), Some(32 * G), supported), None);
    assert_eq!(resolve_max_memory(Some(512), Some(32 * G), supported), Some(512));
    assert_eq!(resolve_max_memory(None, Some(32 * G), supported), Some(4096));
    assert_eq!(resolve_max_memory(None, Some(4 * G), supported), Some(2048));
    assert_eq!(resolve_max_memory(None, Some(1), supported), Some(1));
    assert_eq!(resolve_max_memory(None, None, supported), Some(4096));
}

#[test]
fn max_memory_off_where_no_limit_can_be_set() {
    assert_eq!(resolve_max_memory(None, Some(32 << 30), false), None);
    assert_eq!(resolve_max_memory(Some(512), None, false), Some(512));
    assert_eq!(resolve_max_memory(Some(0), None, false), None);
}

#[test]
fn max_pages_counts_from_first_page() {
    for first in 1u32..=12 {
        for m in 1u32..=12 {
            if let Ok((f, l)) = page_range(12, Some(first), None, Some(m)) {
                assert!(f == first && l - f + 1 <= m && l <= 12);
            }
        }
    }
    assert_eq!(page_range(u32::MAX, Some(u32::MAX - 1), None, Some(5)), Ok((u32::MAX - 1, u32::MAX - 1)));
    assert_eq!(page_range(12, Some(3), None, Some(0)), Err((3, 2)));
}
