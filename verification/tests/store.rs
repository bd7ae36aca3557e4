use nocojs::placeholder_image::PlaceholderImageOutputKind;
use nocojs::store::{ImageRow, Store, StoreError};
use nocojs::transform::PreviewOptions;

fn options(kind: PlaceholderImageOutputKind, width: Option<u32>, height: Option<u32>) -> PreviewOptions {
    PreviewOptions {
        width,
        height,
        output_kind: kind,
        replace_function_call: true,
        cache: true,
        wrap_with_svg: true,
    }
}

#[test]
fn cache_key_default_dimensions() {
    let o = options(PlaceholderImageOutputKind::Normal, None, None);
    assert_eq!(Store::create_cache_key(&o), "normal_0_0");
}

#[test]
fn cache_key_with_width() {
    let o = options(PlaceholderImageOutputKind::AverageColor, Some(8), None);
    assert_eq!(Store::create_cache_key(&o), "average-color_8_0");
}

#[test]
fn cache_key_ignores_delivery_switches() {
    let mut a = options(PlaceholderImageOutputKind::Blurred, Some(4), Some(3));
    let mut b = a;
    a.wrap_with_svg = false;
    b.replace_function_call = false;
    b.cache = false;
    assert_eq!(Store::create_cache_key(&a), Store::create_cache_key(&b));
    assert_eq!(Store::create_cache_key(&a), "blurred_4_3");
}

#[test]
fn cache_key_renders_large_dimensions_in_full() {
    let o = options(PlaceholderImageOutputKind::Normal, Some(u32::MAX), Some(1000000007));
    assert_eq!(Store::create_cache_key(&o), "normal_4294967295_1000000007");
}

#[test]
fn kind_tokens_round_trip() {
    let kinds = [
        (PlaceholderImageOutputKind::Normal, "normal"),
        (PlaceholderImageOutputKind::Blurred, "blurred"),
        (PlaceholderImageOutputKind::Grayscale, "grayscale"),
        (PlaceholderImageOutputKind::DominantColor, "dominant-color"),
        (PlaceholderImageOutputKind::AverageColor, "average-color"),
        (PlaceholderImageOutputKind::Transparent, "transparent"),
    ];
    for (kind, token) in kinds {
        assert_eq!(kind.get_string_name(), token);
        assert_eq!(PlaceholderImageOutputKind::from_string(token), kind);
    }
    assert_eq!(
        PlaceholderImageOutputKind::from_string("no-such-kind"),
        PlaceholderImageOutputKind::Normal
    );
}

#[test]
fn put_then_lookup() {
    let mut store = Store::new();
    let o = options(PlaceholderImageOutputKind::Normal, None, None);
    assert!(!store.has_cached_image("https://example.test/a.png", &o));
    store.insert_or_update(
        "https://example.test/a.png".to_string(),
        "data:image/png;base64,AAAA".to_string(),
        320,
        200,
        &o,
    );
    assert!(store.has_cached_image("https://example.test/a.png", &o));
    let got = store
        .get_placeholder_from_url_and_options("https://example.test/a.png", &o)
        .unwrap();
    assert_eq!(got, "data:image/png;base64,AAAA");
}

#[test]
fn lookup_missing_is_not_found() {
    let store = Store::new();
    let o = options(PlaceholderImageOutputKind::Normal, None, None);
    let r = store.get_placeholder_from_url_and_options("nowhere", &o);
    assert!(matches!(r, Err(StoreError::NotFound)));
    assert_eq!(
        StoreError::NotFound.message(),
        "Placeholder not found for the given URL"
    );
}

#[test]
fn different_options_are_different_records() {
    let mut store = Store::new();
    let normal = options(PlaceholderImageOutputKind::Normal, None, None);
    let sized = options(PlaceholderImageOutputKind::Normal, Some(8), None);
    store.insert_or_update("u".to_string(), "p1".to_string(), 10, 10, &normal);
    assert!(!store.has_cached_image("u", &sized));
    store.insert_or_update("u".to_string(), "p2".to_string(), 10, 10, &sized);
    let (inserts, updates) = store.get_prepared_data();
    assert_eq!(inserts.len(), 2);
    assert_eq!(updates.len(), 0);
}

#[test]
fn second_put_same_key_updates_in_place() {
    let mut store = Store::new();
    let o = options(PlaceholderImageOutputKind::Normal, None, None);
    store.insert_or_update("u".to_string(), "first".to_string(), 10, 10, &o);
    store.insert_or_update("u".to_string(), "second".to_string(), 12, 14, &o);
    assert_eq!(
        store.get_placeholder_from_url_and_options("u", &o).unwrap(),
        "second"
    );
    let (inserts, updates) = store.get_prepared_data();
    // The pair was never flushed, so the record is still addressed as
    // an update of an absent row.
    assert_eq!(inserts.len(), 0);
    assert_eq!(updates.len(), 1);
    assert_eq!(updates[0].placeholder, "second");
    assert_eq!(updates[0].original_width, 12);
    assert_eq!(updates[0].original_height, 14);
}

#[test]
fn loaded_rows_are_clean() {
    let mut store = Store::new();
    let row = ImageRow {
        id: 7,
        url: "https://example.test/b.jpg".to_string(),
        placeholder: "data:image/png;base64,BBBB".to_string(),
        preview_type: "average-color".to_string(),
        cache_key: "average-color_8_0".to_string(),
        original_width: 100,
        original_height: 50,
    };
    let item = store.create_item_from_row(row);
    assert_eq!(item.preview_type, PlaceholderImageOutputKind::AverageColor);
    store.bulk_insert(vec![item]);
    assert!(!store.has_changes());
    let (inserts, updates) = store.get_prepared_data();
    assert!(inserts.is_empty());
    assert!(updates.is_empty());
    let o = options(PlaceholderImageOutputKind::AverageColor, Some(8), None);
    assert!(store.has_cached_image("https://example.test/b.jpg", &o));
}

#[test]
fn update_of_loaded_row_keeps_its_key() {
    let mut store = Store::new();
    let row = ImageRow {
        id: 7,
        url: "u".to_string(),
        placeholder: "old".to_string(),
        preview_type: "normal".to_string(),
        cache_key: "normal_0_0".to_string(),
        original_width: 10,
        original_height: 10,
    };
    let item = store.create_item_from_row(row);
    store.bulk_insert(vec![item]);
    let o = options(PlaceholderImageOutputKind::Normal, None, None);
    store.insert_or_update("u".to_string(), "new".to_string(), 10, 10, &o);
    assert!(store.has_changes());
    let (inserts, updates) = store.get_prepared_data();
    assert_eq!(inserts.len(), 0);
    assert_eq!(updates.len(), 1);
    assert_eq!(updates[0].id, 7);
    assert_eq!(updates[0].placeholder, "new");
}

#[test]
fn uncached_records_never_flush() {
    let mut store = Store::new();
    let mut o = options(PlaceholderImageOutputKind::Normal, None, None);
    o.cache = false;
    store.insert_or_update("u".to_string(), "p".to_string(), 10, 10, &o);
    // The record is delivered from the store but excluded from flushes.
    assert!(store.has_cached_image("u", &o));
    let (inserts, updates) = store.get_prepared_data();
    assert!(inserts.is_empty());
    assert!(updates.is_empty());
}

#[test]
fn prepared_insert_rows_mirror_the_record() {
    let mut store = Store::new();
    let o = options(PlaceholderImageOutputKind::Grayscale, None, Some(12));
    store.insert_or_update(
        "img".to_string(),
        "data:image/png;base64,CCCC".to_string(),
        64,
        48,
        &o,
    );
    let (inserts, updates) = store.get_prepared_data();
    assert!(updates.is_empty());
    assert_eq!(inserts.len(), 1);
    assert_eq!(inserts[0].url, "img");
    assert_eq!(inserts[0].placeholder, "data:image/png;base64,CCCC");
    assert_eq!(inserts[0].preview_type, "grayscale");
    assert_eq!(inserts[0].cache_key, "grayscale_0_12");
    assert_eq!(inserts[0].original_width, 64);
    assert_eq!(inserts[0].original_height, 48);
}
