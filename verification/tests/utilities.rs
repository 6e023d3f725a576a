use pngquant_interactive::utilities::{
    rgb_bytes_vec, rgba_bytes_vec, CachedOption, CountingSink, RGBAs, RGBs, Rgb, Rgba,
};

#[test]
fn counting_sink_starts_empty() {
    let sink = CountingSink::default();
    assert_eq!(sink.len(), 0);
}

#[test]
fn counting_sink_accumulates() {
    let mut sink = CountingSink::default();
    assert_eq!(sink.write(&[1, 2, 3]), 3);
    assert_eq!(sink.write(&[]), 0);
    assert_eq!(sink.write(&[9, 9, 9, 9, 9]), 5);
    assert_eq!(sink.len(), 8);
}

#[test]
fn cache_stores_on_miss() {
    let mut cache: CachedOption<(u8, u8), u32> = CachedOption::default();
    assert!(cache.0.is_none());
    let v = cache.get_or_insert_with((1, 2), || 10);
    assert_eq!(*v, 10);
    assert!(matches!(cache.0, Some(((1, 2), 10))));
}

#[test]
fn cache_keeps_value_on_hit() {
    let mut cache: CachedOption<(u8, u8), u32> = CachedOption::default();
    cache.get_or_insert_with((1, 2), || 10);
    let v = cache.get_or_insert_with((1, 2), || 99);
    assert_eq!(*v, 10);
}

#[test]
fn cache_evicts_on_key_change() {
    let mut cache: CachedOption<(u8, u8), u32> = CachedOption::default();
    cache.get_or_insert_with((1, 2), || 10);
    let v = cache.get_or_insert_with((3, 2), || 99);
    assert_eq!(*v, 99);
    assert!(matches!(cache.0, Some(((3, 2), 99))));
}

#[test]
fn cache_computes_exactly_once_per_key_change() {
    let mut cache: CachedOption<u8, u64> = CachedOption::default();
    let mut runs: u64 = 0;
    cache.get_or_insert_with(1, || {
        runs += 1;
        100
    });
    assert_eq!(runs, 1);
    cache.get_or_insert_with(1, || {
        runs += 1;
        200
    });
    assert_eq!(runs, 1);
    cache.get_or_insert_with(2, || {
        runs += 1;
        300
    });
    assert_eq!(runs, 2);
}

#[test]
fn cache_returns_mutable_slot() {
    let mut cache: CachedOption<u8, u64> = CachedOption::default();
    let v = cache.get_or_insert_with(1, || 5);
    *v = 7;
    let v = cache.get_or_insert_with(1, || 0);
    assert_eq!(*v, 7);
}

#[test]
fn separate_alpha_splits_channels() {
    let pixels = vec![
        Rgba { r: 1, g: 2, b: 3, a: 4 },
        Rgba { r: 5, g: 6, b: 7, a: 8 },
    ];
    let (rgb, a) = pixels.separate_alpha();
    assert_eq!(rgb, vec![Rgb { r: 1, g: 2, b: 3 }, Rgb { r: 5, g: 6, b: 7 }]);
    assert_eq!(a, vec![4, 8]);
}

#[test]
fn without_alpha_drops_channel() {
    let pixels = vec![Rgba { r: 9, g: 8, b: 7, a: 0 }];
    assert_eq!(pixels.without_alpha(), vec![Rgb { r: 9, g: 8, b: 7 }]);
}

#[test]
fn with_alpha_makes_opaque() {
    let pixels = vec![Rgb { r: 1, g: 2, b: 3 }, Rgb { r: 4, g: 5, b: 6 }];
    assert_eq!(
        pixels.with_alpha(),
        vec![
            Rgba { r: 1, g: 2, b: 3, a: 255 },
            Rgba { r: 4, g: 5, b: 6, a: 255 },
        ]
    );
}

#[test]
fn rgba_bytes_flatten_in_channel_order() {
    let pixels = vec![
        Rgba { r: 1, g: 2, b: 3, a: 4 },
        Rgba { r: 5, g: 6, b: 7, a: 8 },
    ];
    assert_eq!(rgba_bytes_vec(&pixels), vec![1, 2, 3, 4, 5, 6, 7, 8]);
}

#[test]
fn rgb_bytes_flatten_in_channel_order() {
    let pixels = vec![Rgb { r: 1, g: 2, b: 3 }, Rgb { r: 4, g: 5, b: 6 }];
    assert_eq!(rgb_bytes_vec(&pixels), vec![1, 2, 3, 4, 5, 6]);
}
