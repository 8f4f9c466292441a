use tpt_ignis::schema::{ddl, ddl_detect_instability, ddl_diagnostics, ddl_instability, udf_wasm_base64};

#[test]
fn ddl_lists_both_tables() {
    let d = ddl();
    assert_eq!(d, vec![ddl_diagnostics(), ddl_instability()]);
    assert!(d[0].starts_with("CREATE TABLE diagnostics ("));
    assert!(d[1].starts_with("CREATE TABLE instability_report ("));
    assert!(d[0].contains("sample_idx  bigint"));
}

#[test]
fn udf_ddl_quotes_the_module() {
    let s = ddl_detect_instability("AAAA");
    assert_eq!(
        s,
        "CREATE FUNCTION detect_instability(float8[]) RETURNS float8[] LANGUAGE wasm AS 'AAAA'"
    );
}

#[test]
fn udf_module_is_base64_encoded() {
    assert_eq!(udf_wasm_base64(b"hello"), "aGVsbG8=");
    assert_eq!(udf_wasm_base64(b"hell"), "aGVsbA==");
    assert_eq!(udf_wasm_base64(b""), "");
    let wasm = [0x00u8, 0x61, 0x73, 0x6d, 0x01, 0x00, 0x00, 0x00];
    let text = udf_wasm_base64(&wasm);
    assert_eq!(text, "AGFzbQEAAAA=");
    let stmt = ddl_detect_instability(&text);
    assert!(stmt.ends_with(" AS 'AGFzbQEAAAA='"));
    assert_eq!(stmt.matches('\'').count(), 2);
}
