use backup_pricing::item::PriceItem;

/// Turns an upstream decimal price into the library's fixed-point
/// micro-units, the way the surrounding application layer does.
fn to_micros(x: f64) -> u64 {
    (x * 1_000_000.0).round() as u64
}

fn field<'a>(v: &'a serde_json::Value, name: &str) -> &'a str {
    v.get(name).and_then(|f| f.as_str()).expect("string field")
}

fn price_item_from_value(v: &serde_json::Value) -> PriceItem {
    PriceItem {
        currency_code: field(v, "currencyCode").to_string(),
        tier_minimum_units: to_micros(v["tierMinimumUnits"].as_f64().expect("number")),
        retail_price: to_micros(v["retailPrice"].as_f64().expect("number")),
        unit_price: to_micros(v["unitPrice"].as_f64().expect("number")),
        arm_region_name: field(v, "armRegionName").to_string(),
        location: field(v, "location").to_string(),
        effective_start_date: field(v, "effectiveStartDate").to_string(),
        meter_id: field(v, "meterId").to_string(),
        meter_name: field(v, "meterName").to_string(),
        product_id: field(v, "productId").to_string(),
        sku_id: field(v, "skuId").to_string(),
        product_name: field(v, "productName").to_string(),
        sku_name: field(v, "skuName").to_string(),
        service_name: field(v, "serviceName").to_string(),
        service_id: field(v, "serviceId").to_string(),
        service_family: field(v, "serviceFamily").to_string(),
        unit_of_measure: field(v, "unitOfMeasure").to_string(),
        price_type: field(v, "type").to_string(),
    }
}

const PAYLOAD: &str = r#"{
  "BillingCurrency": "USD",
  "CustomerEntityId": "Default",
  "CustomerEntityType": "Retail",
  "Items": [
    {
      "currencyCode": "USD",
      "tierMinimumUnits": 0.0,
      "retailPrice": 0.0456,
      "unitPrice": 0.0456,
      "armRegionName": "eastus",
      "location": "US East",
      "effectiveStartDate": "2021-10-01T00:00:00Z",
      "meterId": "0a1b2c3d",
      "meterName": "Backup Storage LRS",
      "productId": "DZH318Z0BQ5B",
      "skuId": "DZH318Z0BQ5B/004G",
      "productName": "SQL Database Single Standard - Backup Storage",
      "skuName": "Backup LRS",
      "serviceName": "SQL Database",
      "serviceId": "DZH3181X37ZK",
      "serviceFamily": "Databases",
      "unitOfMeasure": "1 GB/Month",
      "type": "Consumption"
    }
  ],
  "NextPageLink": null,
  "Count": 1
}"#;

#[test]
fn decoded_price_item_preserves_every_field() {
    let envelope: serde_json::Value = serde_json::from_str(PAYLOAD).expect("well-formed payload");
    let items = envelope["Items"].as_array().expect("Items array");
    assert_eq!(items.len(), 1);
    assert_eq!(envelope["Count"].as_i64(), Some(1));
    assert!(envelope["NextPageLink"].is_null());

    let item = price_item_from_value(&items[0]);
    assert_eq!(item.currency_code, "USD");
    assert_eq!(item.tier_minimum_units, 0);
    assert_eq!(item.retail_price, 45_600);
    assert_eq!(item.unit_price, 45_600);
    assert_eq!(item.arm_region_name, "eastus");
    assert_eq!(item.location, "US East");
    assert_eq!(item.effective_start_date, "2021-10-01T00:00:00Z");
    assert_eq!(item.meter_id, "0a1b2c3d");
    assert_eq!(item.meter_name, "Backup Storage LRS");
    assert_eq!(item.product_id, "DZH318Z0BQ5B");
    assert_eq!(item.sku_id, "DZH318Z0BQ5B/004G");
    assert_eq!(item.product_name, "SQL Database Single Standard - Backup Storage");
    assert_eq!(item.sku_name, "Backup LRS");
    assert_eq!(item.service_name, "SQL Database");
    assert_eq!(item.service_id, "DZH3181X37ZK");
    assert_eq!(item.service_family, "Databases");
    assert_eq!(item.unit_of_measure, "1 GB/Month");
    assert_eq!(item.price_type, "Consumption");
}

#[test]
fn micro_unit_conversion_is_exact_for_documented_prices() {
    assert_eq!(to_micros(0.05), 50_000);
    assert_eq!(to_micros(0.0), 0);
    assert_eq!(to_micros(1.0), 1_000_000);
    assert_eq!(to_micros(0.0456), 45_600);
}
