use oura::fs_utils::{
    cleanup_max_age, default_cleanup_dir_patterns, default_cleanup_patterns, find_readme, format_size,
    scan_configs, CleanupContext, EntryWalk, SizeWalk, Visit,
};

#[test]
fn test_format_size_bytes() {
    assert_eq!(format_size(0), "0B");
    assert_eq!(format_size(512), "512.0B");
}

#[test]
fn test_format_size_kb() {
    assert_eq!(format_size(1024), "1.0KB");
    assert_eq!(format_size(2048), "2.0KB");
}

#[test]
fn test_format_size_mb() {
    assert_eq!(format_size(1048576), "1.0MB");
}

#[test]
fn test_format_size_gb() {
    let one_gb = 1073741824u64;
    assert_eq!(format_size(one_gb), "1.0GB");
}

/// The floating-point computation the sizes are shown with.
fn format_size_f64(bytes: u64) -> String {
    const UNITS: &[&str] = &["B", "KB", "MB", "GB", "TB", "PB"];
    if bytes == 0 {
        return "0B".into();
    }
    let mut size = bytes as f64;
    let mut unit = 0;
    while size >= 1024.0 && unit < UNITS.len() - 1 {
        size /= 1024.0;
        unit += 1;
    }
    format!("{:.1}{}", size, UNITS[unit])
}

#[test]
fn format_size_agrees_with_float_formatting() {
    let mut samples: Vec<u64> = vec![
        1, 9, 10, 99, 1023, 1025, 1075, 1126, 1280, 1536, 1177, 10239, 10240, 1048575, 1048576 + 52428,
        5 * 1048576 + 52428, u64::MAX, u64::MAX - 1, 1 << 53, (1 << 53) + 1, (1 << 54) + 3, (1 << 63) + 1025,
        1125899906842624, 1125899906842624 * 1023, 1152921504606846976,
    ];
    let mut x: u64 = 0x9E37_79B9_7F4A_7C15;
    for _ in 0..20000 {
        x ^= x << 13;
        x ^= x >> 7;
        x ^= x << 17;
        samples.push(x >> (x % 64));
        samples.push(x % 100_000);
    }
    for k in 0..64 {
        let p = 1u64 << k;
        samples.push(p);
        samples.push(p - 1);
        samples.push(p.wrapping_add(p / 2));
        samples.push(p.wrapping_add(p / 20));
    }
    for b in samples {
        assert_eq!(format_size(b), format_size_f64(b), "size {}", b);
    }
}

#[test]
fn format_size_units() {
    assert_eq!(format_size(1536), "1.5KB");
    assert_eq!(format_size(1099511627776), "1.0TB");
    assert_eq!(format_size(1125899906842624), "1.0PB");
    assert_eq!(format_size(u64::MAX), "16384.0PB");
}

#[test]
fn test_find_readme_nonexistent() {
    assert!(find_readme(&vec![false, false, false, false, false]).is_none());
}

#[test]
fn test_find_readme_exists() {
    assert_eq!(find_readme(&vec![true, false, false, false, false]), Some("README.md"));
    assert_eq!(find_readme(&vec![false, false, true, true, false]), Some("readme.md"));
}

#[test]
fn test_scan_configs_cargo() {
    let configs = scan_configs(&vec![true, false, false, false, false, false]);
    assert!(configs.contains(&"Cargo.toml".to_string()));
}

#[test]
fn test_scan_configs_empty() {
    let configs = scan_configs(&vec![false; 6]);
    assert!(configs.is_empty());
}

#[test]
fn scan_configs_keeps_order() {
    let configs = scan_configs(&vec![false, true, false, true, false, true]);
    assert_eq!(configs, vec!["package.json", "go.mod", "CMakeLists.txt"]);
}

#[test]
fn test_collect_entries_empty_dir() {
    let mut walk = EntryWalk::new(3, 100);
    assert!(walk.enter(7, 0, true));
    let entries = walk.into_entries();
    assert!(entries.is_empty());
}

#[test]
fn entry_walk_skips_hidden_and_links() {
    let mut walk = EntryWalk::new(3, 100);
    assert!(walk.enter(1, 0, true));
    assert_eq!(walk.visit(".git".into(), 0, true, false, 0), Visit::Skip);
    assert_eq!(walk.visit("link".into(), 0, false, true, 5), Visit::Skip);
    assert_eq!(walk.visit("src".into(), 0, true, false, 4096), Visit::Descend);
    assert_eq!(walk.visit("main.rs".into(), 1, false, false, 42), Visit::Next);
    let entries = walk.into_entries();
    assert_eq!(entries, vec![("src".to_string(), 0, true, 0), ("main.rs".to_string(), 1, false, 42)]);
}

#[test]
fn entry_walk_stops_past_the_bound() {
    let mut walk = EntryWalk::new(3, 1);
    assert!(walk.enter(1, 0, true));
    assert_eq!(walk.visit("a".into(), 0, false, false, 1), Visit::Next);
    assert_eq!(walk.visit("b".into(), 0, false, false, 1), Visit::Stop);
    assert!(!walk.enter(2, 1, true));
}

#[test]
fn entry_walk_enters_each_directory_once() {
    let mut walk = EntryWalk::new(3, 100);
    assert!(walk.enter(9, 0, true));
    assert!(!walk.enter(9, 1, true));
    assert!(walk.enter(0, 1, true));
    assert!(walk.enter(0, 1, true));
    assert!(!walk.enter(10, 4, true));
    assert!(!walk.enter(11, 1, false));
}

#[test]
fn test_dir_size_file() {
    let mut walk = SizeWalk::new(0, 100);
    assert!(walk.enter(5, 0));
    assert!(walk.add_file(5));
    assert_eq!(walk.total(), 5);
}

#[test]
fn size_walk_bounds() {
    let mut walk = SizeWalk::new(1, 2);
    assert!(walk.enter(1, 0));
    assert!(walk.add_file(10));
    assert!(walk.add_file(20));
    assert!(!walk.add_file(30));
    assert_eq!(walk.total(), 60);
    assert_eq!(walk.count(), 3);
    assert!(!walk.enter(2, 1));
    let mut deep = SizeWalk::new(1, 100);
    assert!(!deep.enter(3, 2));
}

#[test]
fn cleanup_max_age_days() {
    assert_eq!(cleanup_max_age(30), 30 * 86400);
    assert_eq!(cleanup_max_age(0), u64::MAX);
    assert_eq!(cleanup_max_age(u64::MAX), u64::MAX);
}

#[test]
fn cleanup_context_finds_candidates() {
    let mut ctx = CleanupContext::new(default_cleanup_patterns(), default_cleanup_dir_patterns(), 1_000_000, 100, 20);
    ctx.begin_walk();
    assert!(ctx.enter(1, 0));
    assert!(ctx.is_dir_candidate("node_modules"));
    assert!(!ctx.is_dir_candidate("src"));
    ctx.add_dir("/p/node_modules".to_string(), 1000);
    assert!(ctx.matches_file("debug.log"));
    assert!(ctx.matches_file("Thumbs.db"));
    assert!(!ctx.matches_file("main.rs"));
    assert!(!ctx.matches_file("log"));
    assert!(ctx.is_old_enough(10));
    assert!(!ctx.is_old_enough(999_950));
    assert!(ctx.consider_file("/p/debug.log".to_string(), 10, 50));
    assert!(!ctx.consider_file("/p/new.log".to_string(), 999_950, 50));
    assert!(ctx.consider_file("/p/future.log".to_string(), 2_000_000, 7) == false);
    assert_eq!(ctx.total_size(), 1050);
    assert_eq!(
        ctx.candidates(),
        &vec![
            ("/p/node_modules".to_string(), "dir".to_string()),
            ("/p/debug.log".to_string(), "file".to_string())
        ]
    );
}
