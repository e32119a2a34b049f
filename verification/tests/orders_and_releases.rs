use mastertech::dates::{rfc3339_as_us_date, timestamp_as_us_date, unix_to_string};
use mastertech::github::self_updater::update_url;
use mastertech::github::{
    can_submit_issue, format_date, matches_build, release_date, pick_asset, proxied_github_asset_url, to_ascii_lowercase, Asset,
    DownloadProgress,
};
use mastertech::shopify::{
    item_serials_cell, more_orders_waiting, next_limit, normalize_lookup, order_reference, row_from_summary,
    serials_cell, short_date, LineItemCodec, OrderCodec, ShopifyLineItemRow, ShopifyLineItemRowViewer,
    ShopifyOrderRow, ShopifyOrderRowViewer, ORDERS_PAGE,
};
use mastertech::text::TextOrder;

fn order(reference: &str, status: &str, customer: &str, build: &str) -> ShopifyOrderRow {
    ShopifyOrderRow {
        reference: reference.to_string(),
        status: status.to_string(),
        customer: customer.to_string(),
        build: build.to_string(),
        serials: "0/1".to_string(),
        placed: "2024-01-01".to_string(),
        lookup: "gid://1".to_string(),
    }
}

#[test]
fn short_date_keeps_the_date_part() {
    assert_eq!(short_date(Some("2026-06-15T17:54:35Z")), "2026-06-15");
    assert_eq!(short_date(Some("2026-06-15")), "2026-06-15");
    assert_eq!(short_date(None), "");
}

#[test]
fn order_cells() {
    assert_eq!(order_reference("123", ""), "123");
    assert_eq!(order_reference("123", "#1001"), "#1001");
    assert_eq!(serials_cell(2, 3), "2/3");
    assert_eq!(item_serials_cell(&Vec::new()), "\u{2014}");
    assert_eq!(item_serials_cell(&vec!["A".to_string(), "B".to_string()]), "A, B");
    let r = row_from_summary("9", "", "paid", "Ann", "X1", 1, 2, Some("2025-02-03T00:00:00Z"), "k");
    assert_eq!(r.reference, "9");
    assert_eq!(r.serials, "1/2");
    assert_eq!(r.placed, "2025-02-03");
    assert_eq!(r.lookup, "k");
}

#[test]
fn a_pasted_cell_reads_back_as_copied() {
    let src = order("#1", "paid", "Ann", "X1");
    let mut codec = OrderCodec;
    let mut copied = String::new();
    codec.encode_column(&src, 2, &mut copied);
    assert_eq!(copied, "Ann");
    let mut dst = codec.create_empty_decoded_row();
    assert!(codec.decode_column(&copied, 2, &mut dst).is_ok());
    assert_eq!(dst.customer, "Ann");
    assert_eq!(dst.reference, "");
    let mut beyond = String::from("x");
    codec.encode_column(&src, 6, &mut beyond);
    assert_eq!(beyond, "x");
    let mut items = LineItemCodec;
    let item = ShopifyLineItemRow {
        name: "GPU".to_string(),
        reference: "R".to_string(),
        quantity: "2".to_string(),
        serials: "S".to_string(),
    };
    let mut q = String::new();
    items.encode_column(&item, 2, &mut q);
    assert_eq!(q, "2");
    let mut row = items.create_empty_decoded_row();
    assert!(items.decode_column("GPU", 0, &mut row).is_ok());
    assert_eq!(row.name, "GPU");
}

#[test]
fn the_order_filter_ignores_case_and_blanks() {
    let mut v = ShopifyOrderRowViewer::new();
    let row = order("#1001", "Paid", "Ann Smith", "X1");
    assert!(v.filter_row(&row));
    v.filter = "  ".to_string();
    assert!(v.filter_row(&row));
    v.filter = "SMITH".to_string();
    assert!(v.filter_row(&row));
    v.filter = "bob".to_string();
    assert!(!v.filter_row(&row));
    assert_eq!(v.num_columns(), 6);
    assert_eq!(v.column_name(0), " Order");
    assert_eq!(v.column_name(5), " Placed");
    assert!(ShopifyLineItemRowViewer::default().filter_row(&ShopifyLineItemRow::default()));
    assert_eq!(ShopifyLineItemRowViewer::default().column_name(2), " Qty");
}

#[test]
fn cells_sort_as_text() {
    let v = ShopifyOrderRowViewer::new();
    let a = order("#1", "a", "Ann", "X");
    let b = order("#2", "a", "Bob", "X");
    assert_eq!(v.compare_cell(&a, &b, 0), TextOrder::Less);
    assert_eq!(v.compare_cell(&b, &a, 2), TextOrder::Greater);
    assert_eq!(v.compare_cell(&a, &b, 1), TextOrder::Equal);
    assert_eq!(v.compare_cell(&a, &b, 9), TextOrder::Equal);
}

#[test]
fn lookups_are_normalized() {
    assert_eq!(normalize_lookup("  1001 "), Some("#1001".to_string()));
    assert_eq!(normalize_lookup("#1001"), Some("#1001".to_string()));
    assert_eq!(normalize_lookup("xbs-42"), Some("xbs-42".to_string()));
    assert_eq!(normalize_lookup("   "), None);
}

#[test]
fn paging() {
    assert!(more_orders_waiting(10, 10));
    assert!(!more_orders_waiting(3, 10));
    assert_eq!(next_limit(10), 10 + ORDERS_PAGE);
}

#[test]
fn chrono_dates() {
    assert_eq!(timestamp_as_us_date("2024-01-02 03:04:05"), Some("01/02/2024".to_string()));
    assert_eq!(timestamp_as_us_date("yesterday"), None);
    assert_eq!(rfc3339_as_us_date("2026-06-15T17:54:35Z"), Some("06/15/2026".to_string()));
    assert_eq!(rfc3339_as_us_date("2026-06-15"), None);
    assert_eq!(format_date("2020-12-31T23:00:00+00:00"), "12/31/2020");
    assert_eq!(release_date("2020-12-31T23:00:00+00:00"), Some("12/31/2020".to_string()));
    assert_eq!(release_date("never"), None);
    assert_eq!(unix_to_string(0), "01/01/1970 00:00 UTC");
    assert_eq!(unix_to_string(86400 + 3600 + 60), "01/02/1970 01:01 UTC");
    assert_eq!(unix_to_string(i64::MAX), "9223372036854775807");
    assert_eq!(unix_to_string(i64::MIN), "-9223372036854775808");
}

#[test]
fn assets_are_fetched_through_the_proxy() {
    assert_eq!(
        proxied_github_asset_url("https://api.github.com/repos/o/r/releases/assets/1"),
        "https://git.master-tech.app/repos/o/r/releases/assets/1"
    );
    assert_eq!(proxied_github_asset_url("https://example.com/a"), "https://example.com/a");
    assert_eq!(
        update_url(Some("https://api.github.com/x")),
        Some("https://git.master-tech.app/x".to_string())
    );
    assert_eq!(update_url(Some("")), None);
    assert_eq!(update_url(None), None);
}

fn asset(name: &str) -> Asset {
    Asset {
        name: name.to_string(),
        url: String::new(),
        browser_download_url: String::new(),
        size: 0,
        created_at: String::new(),
    }
}

#[test]
fn the_build_for_this_system_is_picked() {
    assert_eq!(to_ascii_lowercase("MasterTech.EXE"), "mastertech.exe");
    assert!(matches_build("MasterTech-1.2.EXE", "mastertech", true));
    assert!(!matches_build("MasterTech-1.2.EXE", "mastertech", false));
    assert!(matches_build("mastertech-linux", "mastertech", false));
    let assets = vec![asset("notes.txt"), asset("mastertech-linux"), asset("Mastertech.exe")];
    assert_eq!(pick_asset(&assets, "mastertech", true), Some(2));
    assert_eq!(pick_asset(&assets, "mastertech", false), Some(1));
    assert_eq!(pick_asset(&assets, "other", false), None);
}

#[test]
fn a_download_is_followed_until_whole() {
    let mut p = DownloadProgress::new(10);
    assert_eq!(p.on_chunk(4), Some((4, 10)));
    assert!(!p.is_complete());
    assert_eq!(p.finish(), Err("update download incomplete: 4/10 bytes".to_string()));
    assert_eq!(p.on_chunk(6), None);
    assert!(p.is_complete());
    assert_eq!(p.finish(), Ok((10, 10)));
    let mut unknown = DownloadProgress::new(0);
    assert_eq!(unknown.on_chunk(5), Some((5, 0)));
    assert_eq!(unknown.finish(), Ok((5, 5)));
}

#[test]
fn an_issue_needs_a_title_and_a_description() {
    assert!(can_submit_issue("t", "d"));
    assert!(!can_submit_issue("", "d"));
    assert!(!can_submit_issue("t", ""));
}

#[test]
fn due_dates_are_midnight_utc() {
    assert_eq!(mastertech::dates::due_date_rfc3339(2024, 3, 5), Some("2024-03-05T00:00:00+00:00".to_string()));
    assert_eq!(mastertech::dates::due_date_rfc3339(2023, 2, 30), None);
}

#[test]
fn due_dates_follow_the_calendar() {
    let due_date_rfc3339 = mastertech::dates::due_date_rfc3339;
    assert_eq!(due_date_rfc3339(2024, 2, 29), Some("2024-02-29T00:00:00+00:00".to_string()));
    assert_eq!(due_date_rfc3339(2000, 2, 29), Some("2000-02-29T00:00:00+00:00".to_string()));
    assert_eq!(due_date_rfc3339(2023, 2, 29), None);
    assert_eq!(due_date_rfc3339(2100, 2, 29), None);
    assert_eq!(due_date_rfc3339(2024, 4, 31), None);
    assert_eq!(due_date_rfc3339(2024, 13, 1), None);
    assert_eq!(due_date_rfc3339(2024, 1, 0), None);
    assert_eq!(due_date_rfc3339(10000, 1, 1), Some("+10000-01-01T00:00:00+00:00".to_string()));
    assert_eq!(due_date_rfc3339(-1, 12, 31), Some("-0001-12-31T00:00:00+00:00".to_string()));
    assert_eq!(due_date_rfc3339(7, 7, 7), Some("0007-07-07T00:00:00+00:00".to_string()));
    assert_eq!(due_date_rfc3339(262143, 1, 1), None);
    assert_eq!(mastertech::dates::due_day("2024-03-05T23:10:00Z"), Some((2024, 3, 5)));
    assert_eq!(mastertech::dates::due_day("2024-03-05T23:10:00-05:00"), Some((2024, 3, 6)));
    assert_eq!(mastertech::dates::due_day("soon"), None);
}
