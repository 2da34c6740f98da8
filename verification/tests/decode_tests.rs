use std::io::Write;

use rbk_db::db::{decode_rows, decode_rows_each};
use rbk_db::decode::{check_header, csv_rows, gunzip, read_table_rows};
use rbk_db::record::{decode_bool, decode_opt_i32, decode_opt_url, Color};

fn gz(text: &str) -> Vec<u8> {
    let mut enc = flate2::write::GzEncoder::new(Vec::new(), flate2::Compression::default());
    enc.write_all(text.as_bytes()).unwrap();
    enc.finish().unwrap()
}

#[test]
fn booleans_decode_only_t_and_f() {
    assert_eq!(decode_bool("t"), Some(true));
    assert_eq!(decode_bool("f"), Some(false));
    assert_eq!(decode_bool("x"), None);
    assert_eq!(decode_bool(""), None);
    assert_eq!(decode_bool("true"), None);
    assert_eq!(decode_bool("T"), None);
}

#[test]
fn optional_urls_decode() {
    assert_eq!(decode_opt_url(""), Some(None));
    assert_eq!(decode_opt_url("not a url"), None);
    let decoded = decode_opt_url("https://example.com/img/1.png").unwrap().unwrap();
    let parsed = url::Url::parse("https://example.com/img/1.png").unwrap();
    assert_eq!(decoded, String::from(parsed));
    // The decoded value is the URL's serialization, not the raw text.
    let normalized = decode_opt_url("HTTPS://Example.COM").unwrap().unwrap();
    assert_eq!(normalized, "https://example.com/");
}

#[test]
fn optional_ints_decode() {
    assert_eq!(decode_opt_i32(""), Some(None));
    assert_eq!(decode_opt_i32("42"), Some(Some(42)));
    assert_eq!(decode_opt_i32("4x"), None);
}

#[test]
fn gunzip_inflates_and_rejects() {
    let data = gz("hello");
    assert_eq!(gunzip(&data).unwrap(), b"hello".to_vec());
    assert_eq!(gunzip(&b"not gzip".to_vec()), None);
}

#[test]
fn csv_splits_header_and_rows() {
    let text = b"id,name\n1,Black\n2,White\n".to_vec();
    let (header, rows) = csv_rows(&text).unwrap();
    assert_eq!(header, vec!["id".to_string(), "name".to_string()]);
    assert_eq!(rows.len(), 2);
    assert_eq!(rows[0], vec!["1".to_string(), "Black".to_string()]);
    assert_eq!(rows[1], vec!["2".to_string(), "White".to_string()]);
}

#[test]
fn csv_rejects_uneven_rows() {
    let text = b"id,name\n1,Black,extra\n".to_vec();
    assert!(csv_rows(&text).is_none());
}

#[test]
fn table_stream_reads_through_compression() {
    let data = gz("id,name\n1,Black\n");
    let (header, rows) = read_table_rows(&data).unwrap();
    assert_eq!(header, vec!["id".to_string(), "name".to_string()]);
    assert_eq!(rows.len(), 1);
}

#[test]
fn header_must_match_schema_exactly() {
    let schema: Vec<&'static str> = vec!["id", "name", "rgb", "is_trans"];
    let good: Vec<String> = vec![
        "id".to_string(),
        "name".to_string(),
        "rgb".to_string(),
        "is_trans".to_string(),
    ];
    assert!(check_header(&good, &schema));

    let extra: Vec<String> = vec![
        "id".to_string(),
        "name".to_string(),
        "rgb".to_string(),
        "is_trans".to_string(),
        "extra".to_string(),
    ];
    assert!(!check_header(&extra, &schema));

    let renamed: Vec<String> = vec![
        "id".to_string(),
        "name".to_string(),
        "rgb".to_string(),
        "is_transparent".to_string(),
    ];
    assert!(!check_header(&renamed, &schema));

    let reordered: Vec<String> = vec![
        "name".to_string(),
        "id".to_string(),
        "rgb".to_string(),
        "is_trans".to_string(),
    ];
    assert!(!check_header(&reordered, &schema));

    let missing: Vec<String> = vec!["id".to_string(), "name".to_string(), "rgb".to_string()];
    assert!(!check_header(&missing, &schema));
}

#[test]
fn rows_decode_all_or_nothing() {
    let good: Vec<Vec<String>> = vec![
        vec![
            "1".to_string(),
            "Black".to_string(),
            "#000000".to_string(),
            "f".to_string(),
        ],
        vec![
            "2".to_string(),
            "Trans-Clear".to_string(),
            "fcfcfc".to_string(),
            "t".to_string(),
        ],
    ];
    let recs: Vec<Color> = decode_rows(&good).unwrap();
    assert_eq!(recs.len(), 2);
    assert_eq!(recs[0].id, 1);
    assert_eq!(recs[0].name, "Black");
    assert_eq!(recs[0].rgb.to_text(), "#000000");
    assert!(!recs[0].is_trans);
    assert!(recs[1].is_trans);

    let bad: Vec<Vec<String>> = vec![
        vec![
            "1".to_string(),
            "Black".to_string(),
            "#000000".to_string(),
            "f".to_string(),
        ],
        vec![
            "2".to_string(),
            "White".to_string(),
            "#ffffff".to_string(),
            "x".to_string(),
        ],
    ];
    let r: Result<Vec<Color>, _> = decode_rows(&bad);
    assert!(r.is_err());
}

#[test]
fn rows_judged_independently() {
    // One bad row does not keep later rows from being judged.
    let rows: Vec<Vec<String>> = vec![
        vec![
            "1".to_string(),
            "Black".to_string(),
            "#000000".to_string(),
            "f".to_string(),
        ],
        vec![
            "2".to_string(),
            "White".to_string(),
            "#ffffff".to_string(),
            "x".to_string(),
        ],
        vec![
            "3".to_string(),
            "Red".to_string(),
            "#ff0000".to_string(),
            "t".to_string(),
        ],
    ];
    let judged: Vec<Result<Color, _>> = decode_rows_each(&rows);
    assert_eq!(judged.len(), 3);
    assert!(judged[0].is_ok());
    assert!(judged[1].is_err());
    assert!(judged[2].is_ok());
    assert_eq!(judged[2].as_ref().unwrap().name, "Red");
}
