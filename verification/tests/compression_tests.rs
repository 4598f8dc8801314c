use rustmssql::compression::{codec_from_name, Codec};
use rustmssql::Params;

fn params_with_compression(compression: Option<&str>) -> Params {
    Params {
        name_server: String::from("localhost"),
        query: Some(String::from("SELECT 1")),
        path_file: None,
        file_parquet: String::from("out.parquet"),
        user: None,
        secret: None,
        parameters: Vec::new(),
        compression: compression.map(String::from),
    }
}

#[test]
fn recognized_names_map_to_themselves() {
    assert_eq!(codec_from_name("SNAPPY"), Codec::Snappy);
    assert_eq!(codec_from_name("GZIP"), Codec::Gzip);
    assert_eq!(codec_from_name("BROTLI"), Codec::Brotli);
    assert_eq!(codec_from_name("LZ4"), Codec::Lz4);
    assert_eq!(codec_from_name("LZO"), Codec::Lzo);
    assert_eq!(codec_from_name("LZ4_RAW"), Codec::Lz4Raw);
    assert_eq!(codec_from_name("UNCOMPRESSED"), Codec::Uncompressed);
    assert_eq!(codec_from_name("ZSTD"), Codec::Zstd);
}

#[test]
fn selection_ignores_ascii_case() {
    assert_eq!(codec_from_name("gzip"), Codec::Gzip);
    assert_eq!(codec_from_name("GZIP"), Codec::Gzip);
    assert_eq!(codec_from_name("GzIp"), Codec::Gzip);
    assert_eq!(codec_from_name("snappy"), Codec::Snappy);
    assert_eq!(codec_from_name("lz4_raw"), Codec::Lz4Raw);
    assert_eq!(codec_from_name("zstd"), Codec::Zstd);
}

#[test]
fn unrecognized_name_falls_back_to_zstd() {
    assert_eq!(codec_from_name("banana"), Codec::Zstd);
    assert_eq!(codec_from_name(""), Codec::Zstd);
    assert_eq!(codec_from_name("GZIP "), Codec::Zstd);
    assert_eq!(codec_from_name("LZ4RAW"), Codec::Zstd);
}

#[test]
fn absent_option_selects_zstd() {
    let p = params_with_compression(None);
    assert_eq!(p.select_compression(), Codec::Zstd);
}

#[test]
fn banana_and_absent_behave_like_zstd() {
    let banana = params_with_compression(Some("banana"));
    let absent = params_with_compression(None);
    let zstd = params_with_compression(Some("ZSTD"));
    assert_eq!(banana.select_compression(), zstd.select_compression());
    assert_eq!(absent.select_compression(), zstd.select_compression());
}
