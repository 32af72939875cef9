use backup_pricing::ApiResponse;
use backup_pricing::BackupPricingQuery;
use backup_pricing::FetchError;
use backup_pricing::check_status;
use backup_pricing::cascade::{
    create_fallback_pricing, ltr_fetch_suffices, resolve_backup_storage, resolve_backup_storage_at,
    resolve_ltr_at, resolve_regions,
};
use backup_pricing::config::{BASE_URL, FALLBACK_ID, FALLBACK_PRICE_MICROS};
use backup_pricing::filters::{
    build_backup_storage_filter, build_generic_backup_filter, build_ltr_filter,
    build_region_discovery_filter, normalize_region,
};
use backup_pricing::item::PriceItem;
use backup_pricing::select::{aggregate_regions, best_ltr_price};
use backup_pricing::text::{contains_sub, is_blank_str, str_lt};

fn mk_item(region: &str, meter_name: &str, sku_name: &str, retail_price: u64) -> PriceItem {
    PriceItem {
        currency_code: "USD".to_string(),
        tier_minimum_units: 0,
        retail_price,
        unit_price: retail_price,
        arm_region_name: region.to_string(),
        location: "Somewhere".to_string(),
        effective_start_date: "2023-01-01T00:00:00Z".to_string(),
        meter_id: "m-id".to_string(),
        meter_name: meter_name.to_string(),
        product_id: "p-id".to_string(),
        sku_id: "s-id".to_string(),
        product_name: "SQL Database".to_string(),
        sku_name: sku_name.to_string(),
        service_name: "SQL Database".to_string(),
        service_id: "svc-id".to_string(),
        service_family: "Databases".to_string(),
        unit_of_measure: "GB/Month".to_string(),
        price_type: "Consumption".to_string(),
    }
}

#[test]
fn normalize_region_lowercases_and_strips_spaces() {
    assert_eq!(normalize_region("East US"), "eastus");
    assert_eq!(normalize_region("  EaSt Us "), "eastus");
    assert_eq!(normalize_region(""), "");
    assert_eq!(normalize_region("westus2"), "westus2");
}

#[test]
fn backup_storage_filter_contains_normalized_region_only() {
    let f = build_backup_storage_filter("East US");
    assert_eq!(
        f,
        "serviceName eq 'SQL Database' and armRegionName eq 'eastus' and contains(meterName, 'Backup Storage')"
    );
    assert!(f.contains("eastus"));
    assert!(!f.contains("East US"));
}

#[test]
fn backup_storage_filter_accepts_empty_region() {
    let f = build_backup_storage_filter("");
    assert_eq!(
        f,
        "serviceName eq 'SQL Database' and armRegionName eq '' and contains(meterName, 'Backup Storage')"
    );
}

#[test]
fn ltr_filter_shape() {
    let f = build_ltr_filter("West US 2");
    assert_eq!(
        f,
        "serviceName eq 'SQL Database' and armRegionName eq 'westus2' and (contains(meterName, 'LTR') or contains(meterName, 'Long Term Retention'))"
    );
}

#[test]
fn generic_filter_without_region() {
    let f = build_generic_backup_filter("Azure Backup", "GRS Data Stored", None);
    assert_eq!(
        f,
        "serviceName eq 'Azure Backup' and endswith(meterName,'GRS Data Stored') and productName eq 'Backup' and type eq 'Consumption' and skuName eq 'Standard'"
    );
}

#[test]
fn generic_filter_with_region() {
    let f = build_generic_backup_filter("Azure Backup", "Data Stored", Some("North Europe"));
    assert_eq!(
        f,
        "serviceName eq 'Azure Backup' and endswith(meterName,'Data Stored') and productName eq 'Backup' and type eq 'Consumption' and skuName eq 'Standard' and armRegionName eq 'northeurope'"
    );
}

#[test]
fn region_discovery_filter_is_broad() {
    assert_eq!(build_region_discovery_filter(), "serviceName eq 'SQL Database'");
    assert_eq!(BASE_URL, "https://prices.azure.com/api/retail/prices");
}

#[test]
fn request_url_percent_encodes_the_filter() {
    let f = build_backup_storage_filter("eastus");
    let url = backup_pricing::build_request_url(&f).unwrap();
    assert_eq!(
        url,
        "https://prices.azure.com/api/retail/prices?%24filter=serviceName+eq+%27SQL+Database%27+and+armRegionName+eq+%27eastus%27+and+contains%28meterName%2C+%27Backup+Storage%27%29"
    );
}

#[test]
fn best_ltr_prefers_lrs_regardless_of_position() {
    let items = vec![
        mk_item("eastus", "LTR Backup Storage", "ZRS", 100_000),
        mk_item("eastus", "LTR Backup Storage", "LRS", 50_000),
    ];
    assert_eq!(best_ltr_price(&items), 50_000);
}

#[test]
fn best_ltr_falls_back_to_first_without_lrs() {
    let items = vec![
        mk_item("eastus", "LTR Backup Storage", "ZRS", 100_000),
        mk_item("eastus", "LTR Backup Storage", "GRS", 200_000),
    ];
    assert_eq!(best_ltr_price(&items), 100_000);
}

#[test]
fn best_ltr_matches_lrs_in_meter_name() {
    let items = vec![
        mk_item("eastus", "Backup Storage", "ZRS", 70_000),
        mk_item("eastus", "LRS LTR Storage", "ZRS", 30_000),
    ];
    assert_eq!(best_ltr_price(&items), 30_000);
}

#[test]
fn best_ltr_empty_list_returns_sentinel_floor() {
    let items: Vec<PriceItem> = Vec::new();
    assert_eq!(best_ltr_price(&items), FALLBACK_PRICE_MICROS);
    assert_eq!(best_ltr_price(&items), 50_000);
}

#[test]
fn aggregate_regions_dedups_sorts_and_drops_blanks() {
    let items = vec![
        mk_item("eastus", "m", "s", 1),
        mk_item("", "m", "s", 1),
        mk_item("  ", "m", "s", 1),
        mk_item("westus", "m", "s", 1),
        mk_item("eastus", "m", "s", 1),
    ];
    let regions = aggregate_regions(&items);
    assert_eq!(regions, vec!["eastus".to_string(), "westus".to_string()]);
}

#[test]
fn aggregate_regions_sorts_lexicographically() {
    let items = vec![
        mk_item("westeurope", "m", "s", 1),
        mk_item("centralus", "m", "s", 1),
        mk_item("eastasia", "m", "s", 1),
        mk_item("centralus", "m", "s", 1),
    ];
    let regions = aggregate_regions(&items);
    assert_eq!(
        regions,
        vec!["centralus".to_string(), "eastasia".to_string(), "westeurope".to_string()]
    );
}

#[test]
fn resolve_regions_fallback_is_the_nine_documented_regions() {
    let regions = resolve_regions(Err(FetchError::Http(503)));
    assert_eq!(
        regions,
        vec![
            "eastus".to_string(),
            "westus".to_string(),
            "westus2".to_string(),
            "eastus2".to_string(),
            "centralus".to_string(),
            "northeurope".to_string(),
            "westeurope".to_string(),
            "eastasia".to_string(),
            "southeastasia".to_string(),
        ]
    );
    let mut dedup = regions.clone();
    dedup.sort();
    dedup.dedup();
    assert_eq!(dedup.len(), 9);
}

#[test]
fn resolve_regions_ok_aggregates() {
    let items = vec![mk_item("westus", "m", "s", 1), mk_item("eastus", "m", "s", 1)];
    let regions = resolve_regions(Ok(items));
    assert_eq!(regions, vec!["eastus".to_string(), "westus".to_string()]);
}

#[test]
fn resolve_backup_passes_successful_fetch_through() {
    let items = vec![mk_item("eastus", "Backup Storage RA-GRS", "Standard", 123)];
    let out = resolve_backup_storage_at("East US", "ts".to_string(), Ok(items.clone()));
    assert_eq!(out, items);
}

#[test]
fn resolve_backup_keeps_genuinely_empty_result() {
    let out = resolve_backup_storage_at("East US", "ts".to_string(), Ok(Vec::new()));
    assert!(out.is_empty());
}

#[test]
fn resolve_backup_synthesizes_fallback_on_http_error() {
    let out = resolve_backup_storage_at(
        "East US",
        "2023-05-01T00:00:00+00:00".to_string(),
        Err(FetchError::Http(500)),
    );
    assert_eq!(out.len(), 1);
    let item = &out[0];
    assert_eq!(item.currency_code, "USD");
    assert_eq!(item.tier_minimum_units, 0);
    assert_eq!(item.retail_price, FALLBACK_PRICE_MICROS);
    assert_eq!(item.unit_price, FALLBACK_PRICE_MICROS);
    assert_eq!(item.arm_region_name, "eastus");
    assert_eq!(item.location, "East US");
    assert_eq!(item.effective_start_date, "2023-05-01T00:00:00+00:00");
    assert_eq!(item.meter_id, FALLBACK_ID);
    assert_eq!(item.meter_name, "Backup Storage LRS");
    assert_eq!(item.product_id, "fallback");
    assert_eq!(item.sku_id, "fallback");
    assert_eq!(item.product_name, "SQL Database");
    assert_eq!(item.sku_name, "General Purpose");
    assert_eq!(item.service_name, "SQL Database");
    assert_eq!(item.service_id, "fallback");
    assert_eq!(item.service_family, "Databases");
    assert_eq!(item.unit_of_measure, "GB/Month");
    assert_eq!(item.price_type, "Consumption");
}

#[test]
fn resolve_backup_synthesizes_fallback_on_decode_error() {
    let out = resolve_backup_storage_at("westus", "ts".to_string(), Err(FetchError::Decode));
    assert_eq!(out.len(), 1);
    assert_eq!(out[0].retail_price, 50_000);
    assert_eq!(out[0].meter_id, "fallback");
}

#[test]
fn resolve_backup_synthesizes_fallback_on_transport_error() {
    let out = resolve_backup_storage_at("westus", "ts".to_string(), Err(FetchError::Transport));
    assert_eq!(out.len(), 1);
    assert_eq!(out[0].retail_price, 50_000);
}

#[test]
fn resolve_backup_synthesizes_fallback_on_url_error() {
    let out = resolve_backup_storage_at("westus", "ts".to_string(), Err(FetchError::InvalidUrl));
    assert_eq!(out.len(), 1);
    assert_eq!(out[0].arm_region_name, "westus");
}

#[test]
fn resolve_backup_clocked_variant_matches_policy() {
    let items = vec![mk_item("eastus", "Backup Storage", "Standard", 7)];
    let out = resolve_backup_storage("eastus", Ok(items.clone()));
    assert_eq!(out, items);
    let out = resolve_backup_storage("East US", Err(FetchError::Http(404)));
    assert_eq!(out.len(), 1);
    assert_eq!(out[0].arm_region_name, "eastus");
    assert_eq!(out[0].location, "East US");
    assert_eq!(out[0].retail_price, 50_000);
}

#[test]
fn ltr_nonempty_fetch_wins() {
    let ltr_items = vec![mk_item("eastus", "LTR Backup Storage", "LRS", 42)];
    let out = resolve_ltr_at(
        "eastus",
        "ts".to_string(),
        Ok(ltr_items.clone()),
        Err(FetchError::Http(500)),
    );
    assert_eq!(out, ltr_items);
}

#[test]
fn ltr_empty_fetch_delegates_to_backup_storage() {
    let backup_items = vec![mk_item("eastus", "Backup Storage RA-GRS", "Standard", 99)];
    let via_cascade = resolve_ltr_at(
        "East US",
        "ts".to_string(),
        Ok(Vec::new()),
        Ok(backup_items.clone()),
    );
    let direct = resolve_backup_storage_at("East US", "ts".to_string(), Ok(backup_items));
    assert_eq!(via_cascade, direct);
}

#[test]
fn ltr_failed_fetch_delegates_to_backup_storage() {
    let via_cascade = resolve_ltr_at(
        "East US",
        "ts".to_string(),
        Err(FetchError::Http(500)),
        Err(FetchError::Http(500)),
    );
    let direct =
        resolve_backup_storage_at("East US", "ts".to_string(), Err(FetchError::Http(500)));
    assert_eq!(via_cascade, direct);
    assert_eq!(via_cascade.len(), 1);
    assert_eq!(via_cascade[0].retail_price, 50_000);
}

#[test]
fn ltr_fetch_suffices_only_for_nonempty_success() {
    assert!(ltr_fetch_suffices(&Ok(vec![mk_item("eastus", "m", "s", 1)])));
    assert!(!ltr_fetch_suffices(&Ok(Vec::new())));
    assert!(!ltr_fetch_suffices(&Err(FetchError::Decode)));
}

#[test]
fn create_fallback_pricing_pins_every_field() {
    let item = create_fallback_pricing("eastus", "East US", "stamp".to_string());
    assert_eq!(item.arm_region_name, "eastus");
    assert_eq!(item.location, "East US");
    assert_eq!(item.effective_start_date, "stamp");
    assert_eq!(item.retail_price, 50_000);
    assert_eq!(item.meter_name, "Backup Storage LRS");
}

#[test]
fn check_status_accepts_only_the_success_range() {
    assert!(check_status(200).is_ok());
    assert!(check_status(204).is_ok());
    assert!(check_status(299).is_ok());
    assert_eq!(check_status(199), Err(FetchError::Http(199)));
    assert_eq!(check_status(301), Err(FetchError::Http(301)));
    assert_eq!(check_status(404), Err(FetchError::Http(404)));
    assert_eq!(check_status(500), Err(FetchError::Http(500)));
}

#[test]
fn api_response_success_shape() {
    let r = ApiResponse::success(5u64);
    assert!(r.success);
    assert_eq!(r.data, Some(5u64));
    assert!(r.error.is_none());
}

#[test]
fn api_response_error_shape() {
    let r: ApiResponse<u64> = ApiResponse::error("boom".to_string());
    assert!(!r.success);
    assert!(r.data.is_none());
    assert_eq!(r.error, Some("boom".to_string()));
}

#[test]
fn backup_pricing_query_carries_parameters() {
    let q = BackupPricingQuery {
        service: "Azure Backup".to_string(),
        meter_suffix: "Data Stored".to_string(),
        region: Some("eastus".to_string()),
    };
    assert_eq!(q.service, "Azure Backup");
    assert_eq!(q.meter_suffix, "Data Stored");
    assert_eq!(q.region.as_deref(), Some("eastus"));
}

#[test]
fn text_helpers_behave() {
    assert!(contains_sub("hello world", "lo wo"));
    assert!(!contains_sub("hello", "worlds"));
    assert!(contains_sub("abc", ""));
    assert!(is_blank_str(""));
    assert!(is_blank_str(" \t "));
    assert!(!is_blank_str(" a "));
    assert!(str_lt("abc", "abd"));
    assert!(!str_lt("abd", "abc"));
    assert!(!str_lt("abc", "abc"));
    assert!(str_lt("ab", "abc"));
}
