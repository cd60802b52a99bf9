use hostinfo::environment::env_context;
use hostinfo::memory::format_gib;
use hostinfo::snapshot::{info_context, HostSnapshot};
use hostinfo::text::{count_text, decimal_string, or_placeholder, placeholder_string};
use hostinfo::welcome::index_context;

fn absent_snapshot(total_memory: u64) -> HostSnapshot {
    HostSnapshot::collect(None, None, None, &Vec::new(), None, total_memory, None)
}

#[test]
fn memory_sixteen_gib() {
    assert_eq!(format_gib(17179869184), "16.00");
}

#[test]
fn memory_zero() {
    assert_eq!(format_gib(0), "0.00");
}

#[test]
fn memory_fractions() {
    assert_eq!(format_gib(1073741824), "1.00");
    assert_eq!(format_gib(1610612736), "1.50");
    assert_eq!(format_gib(8_000_000_000), "7.45");
    assert_eq!(format_gib(16_658_137_088), "15.51");
}

#[test]
fn memory_ties_go_to_even() {
    // 0.125 and 0.375 lie exactly between two hundredths.
    assert_eq!(format_gib(134217728), "0.12");
    assert_eq!(format_gib(402653184), "0.38");
}

#[test]
fn memory_largest() {
    assert_eq!(format_gib(u64::MAX), "17179869184.00");
}

#[test]
fn decimal_digits() {
    assert_eq!(decimal_string(0), "0");
    assert_eq!(decimal_string(7), "7");
    assert_eq!(decimal_string(10), "10");
    assert_eq!(decimal_string(1234567890), "1234567890");
    assert_eq!(decimal_string(u64::MAX), "18446744073709551615");
}

#[test]
fn placeholder_for_missing() {
    assert_eq!(placeholder_string(), "N/A");
    assert_eq!(or_placeholder(None), "N/A");
    assert_eq!(or_placeholder(Some("Linux".to_string())), "Linux");
    assert_eq!(count_text(None), "N/A");
    assert_eq!(count_text(Some(8)), "8");
    assert_eq!(count_text(Some(128)), "128");
}

#[test]
fn empty_cpu_list_and_absent_core_count() {
    let snapshot = absent_snapshot(17179869184);
    assert!(snapshot.cpu_model.is_none());
    let info = info_context(snapshot);
    assert_eq!(info.cpu_model, "N/A");
    assert_eq!(info.core_count, "N/A");
}

#[test]
fn every_missing_fact_shows_placeholder() {
    let info = info_context(absent_snapshot(17179869184));
    assert_eq!(info.title, "Systeminformationen");
    assert_eq!(info.os_name, "N/A");
    assert_eq!(info.os_version, "N/A");
    assert_eq!(info.kernel_version, "N/A");
    assert_eq!(info.cpu_model, "N/A");
    assert_eq!(info.core_count, "N/A");
    assert_eq!(info.memory, "16.00");
    assert_eq!(info.hostname, "N/A");
}

#[test]
fn reported_facts_are_shown() {
    let brands = vec!["Ryzen 7".to_string(), "Other".to_string()];
    let snapshot = HostSnapshot::collect(
        Some("Debian".to_string()),
        Some("12".to_string()),
        Some("6.1.0".to_string()),
        &brands,
        Some(8),
        8_000_000_000,
        Some("box".to_string()),
    );
    assert_eq!(snapshot.cpu_model.as_deref(), Some("Ryzen 7"));
    let info = info_context(snapshot);
    assert_eq!(info.os_name, "Debian");
    assert_eq!(info.os_version, "12");
    assert_eq!(info.kernel_version, "6.1.0");
    assert_eq!(info.cpu_model, "Ryzen 7");
    assert_eq!(info.core_count, "8");
    assert_eq!(info.memory, "7.45");
    assert_eq!(info.hostname, "box");
}

#[test]
fn repeated_collect_is_equal() {
    let brands = vec!["Xeon".to_string()];
    let a = info_context(HostSnapshot::collect(
        Some("Linux".to_string()), None, None, &brands, Some(4), 1073741824, None,
    ));
    let b = info_context(HostSnapshot::collect(
        Some("Linux".to_string()), None, None, &brands, Some(4), 1073741824, None,
    ));
    assert_eq!(a.os_name, b.os_name);
    assert_eq!(a.cpu_model, b.cpu_model);
    assert_eq!(a.core_count, b.core_count);
    assert_eq!(a.memory, b.memory);
    assert_eq!(a.hostname, b.hostname);
}

#[test]
fn env_single_path_row() {
    let listing = vec![("PATH".to_string(), "/usr/bin".to_string())];
    let ctx = env_context(&listing);
    assert_eq!(ctx.title, "Umgebungsvariablen");
    assert_eq!(ctx.vars.len(), 1);
    assert_eq!(ctx.vars[0].key, "PATH");
    assert_eq!(ctx.vars[0].value, "/usr/bin");
}

#[test]
fn env_rows_keep_order_and_duplicates() {
    let listing = vec![
        ("Z".to_string(), "1".to_string()),
        ("A".to_string(), "secret".to_string()),
        ("Z".to_string(), "1".to_string()),
        ("EMPTY".to_string(), String::new()),
    ];
    let ctx = env_context(&listing);
    assert_eq!(ctx.vars.len(), 4);
    for (row, (k, v)) in ctx.vars.iter().zip(listing.iter()) {
        assert_eq!(&row.key, k);
        assert_eq!(&row.value, v);
    }
}

#[test]
fn env_empty_listing() {
    let ctx = env_context(&Vec::new());
    assert!(ctx.vars.is_empty());
}

#[test]
fn welcome_title_not_empty() {
    let ctx = index_context();
    assert_eq!(ctx.title, "Willkommen bei RocketOne");
    assert!(!ctx.title.is_empty());
}
