use photomap::scan::{counts_as_heic, is_excluded_component, is_scanned_extension, ScanStats};

#[test]
fn hidden_and_build_directories_are_excluded() {
    assert!(is_excluded_component(".git"));
    assert!(is_excluded_component(".hidden.jpg"));
    assert!(is_excluded_component("."));
    assert!(is_excluded_component("node_modules"));
    assert!(is_excluded_component("target"));
    assert!(!is_excluded_component("Target"));
    assert!(!is_excluded_component("targets"));
    assert!(!is_excluded_component("node_module"));
    assert!(!is_excluded_component("photos"));
    assert!(!is_excluded_component("a.b"));
    assert!(!is_excluded_component(""));
}

#[test]
fn heic_and_heif_count_as_heic() {
    assert!(counts_as_heic("heic"));
    assert!(counts_as_heic("HEIC"));
    assert!(counts_as_heic("Heif"));
    assert!(!counts_as_heic("avif"));
    assert!(!counts_as_heic("jpg"));
    assert!(!counts_as_heic(""));
}

#[test]
fn figures_of_a_scan_add_up() {
    let stats = ScanStats::of_scan(10, 7, 2);
    assert_eq!(
        stats,
        ScanStats { total_files: 10, processed: 7, gps_count: 7, no_gps_count: 3, heic_count: 2 }
    );
    assert_eq!(stats.skipped_count(), 3);
    let all = ScanStats::of_scan(4, 4, 0);
    assert_eq!(all.no_gps_count, 0);
    assert_eq!(all.skipped_count(), 0);
    let none = ScanStats::of_scan(0, 0, 0);
    assert_eq!(none, ScanStats::empty());
}

#[test]
fn figures_of_several_scans_are_summed() {
    let first = ScanStats::of_scan(10, 7, 2);
    let second = ScanStats::of_scan(5, 5, 5);
    assert_eq!(
        first.plus(&second),
        Some(ScanStats {
            total_files: 15,
            processed: 12,
            gps_count: 12,
            no_gps_count: 3,
            heic_count: 7
        })
    );
    assert_eq!(ScanStats::empty().plus(&first), Some(first));
    let huge = ScanStats::of_scan(usize::MAX, 1, 0);
    assert_eq!(huge.plus(&first), None);
    let many = ScanStats::of_scan(1, 0, usize::MAX);
    assert_eq!(many.plus(&first), None);
    assert!(huge.plus(&ScanStats::empty()).is_some());
}

#[test]
fn jpeg_and_heif_files_are_scanned() {
    for extension in ["jpg", "JPG", "jpeg", "heic", "HEIF", "avif"] {
        assert!(is_scanned_extension(extension));
    }
    for extension in ["png", "tiff", "gif", "mp4", "txt", ""] {
        assert!(!is_scanned_extension(extension));
    }
}
