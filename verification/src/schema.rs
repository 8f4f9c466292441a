//! SQL DDL for the diagnostic time-series tables, the registration statement
//! of the in-database FFT function, and the base64 text that carries the
//! compiled function module.

use vstd::prelude::*;
use base64::Engine;

verus! {

/// DDL of the core `diagnostics` time-series table: one row per sample.
pub fn ddl_diagnostics() -> (res: &'static str)
    ensures
        res@ == "CREATE TABLE diagnostics (
        shot        bigint,
        sample_idx  bigint,
        time        double precision,
        channel     text,
        value       double precision
    )"@,
{
    "CREATE TABLE diagnostics (
        shot        bigint,
        sample_idx  bigint,
        time        double precision,
        channel     text,
        value       double precision
    )"
}

/// DDL of the per-shot instability summary table.
pub fn ddl_instability() -> (res: &'static str)
    ensures
        res@ == "CREATE TABLE instability_report (
        shot              bigint,
        dominant_freq_hz  double precision,
        dominant_mag      double precision,
        instability_score  double precision
    )"@,
{
    "CREATE TABLE instability_report (
        shot              bigint,
        dominant_freq_hz  double precision,
        dominant_mag      double precision,
        instability_score  double precision
    )"
}

/// The text of the statement that registers the `detect_instability` WASM
/// function, with the module given as base64 text.
pub open spec fn detect_instability_ddl(wasm_base64: Seq<char>) -> Seq<char> {
    "CREATE FUNCTION detect_instability(float8[]) RETURNS float8[] LANGUAGE wasm AS '"@ + wasm_base64
        + "'"@
}

/// `CREATE FUNCTION` statement for the WASM FFT function; the module text is
/// placed verbatim between single quotes.
pub fn ddl_detect_instability(wasm_base64: &str) -> (res: String)
    ensures
        res@ == detect_instability_ddl(wasm_base64@),
{
    let mut res: String = String::new();
    res.append("CREATE FUNCTION detect_instability(float8[]) RETURNS float8[] LANGUAGE wasm AS '");
    res.append(wasm_base64);
    res.append("'");
    res
}

/// The table part of the schema, in creation order.
pub fn ddl() -> (res: Vec<&'static str>)
    ensures
        res@.len() == 2,
        res@[0]@ == "CREATE TABLE diagnostics (
        shot        bigint,
        sample_idx  bigint,
        time        double precision,
        channel     text,
        value       double precision
    )"@,
        res@[1]@ == "CREATE TABLE instability_report (
        shot              bigint,
        dominant_freq_hz  double precision,
        dominant_mag      double precision,
        instability_score  double precision
    )"@,
{
    let mut res: Vec<&'static str> = Vec::new();
    res.push(ddl_diagnostics());
    res.push(ddl_instability());
    res
}

/// A character of the standard base64 alphabet or the padding `=`.
pub open spec fn is_base64_char(c: char) -> bool {
    ||| ('A' <= c && c <= 'Z')
    ||| ('a' <= c && c <= 'z')
    ||| ('0' <= c && c <= '9')
    ||| c == '+'
    ||| c == '/'
    ||| c == '='
}

/// A digit of the standard base64 alphabet (RFC 4648): `A`–`Z` for 0–25,
/// `a`–`z` for 26–51, `0`–`9` for 52–61, `+` for 62 and `/` for 63.
pub open spec fn base64_digit(v: int) -> char {
    if v < 26 {
        (65 + v) as char
    } else if v < 52 {
        (97 + v - 26) as char
    } else if v < 62 {
        (48 + v - 52) as char
    } else if v == 62 {
        '+'
    } else {
        '/'
    }
}

/// One group of one to three bytes: their 24-bit big-endian value (missing
/// bytes read as zero) cut into four 6-bit digits, each digit that no byte
/// reached written as the padding `=`.
pub open spec fn base64_group(b: Seq<u8>) -> Seq<char> {
    let n: int = b[0] * 65536 + (if b.len() > 1 { b[1] as int } else { 0 }) * 256 + (if b.len() > 2 {
        b[2] as int
    } else {
        0
    });
    seq![
        base64_digit(n / 262144),
        base64_digit((n / 4096) % 64),
        if b.len() > 1 { base64_digit((n / 64) % 64) } else { '=' },
        if b.len() > 2 { base64_digit(n % 64) } else { '=' },
    ]
}

/// Padded standard base64 (RFC 4648) of `bytes`: each group of three bytes,
/// and the shorter last group, encoded in turn.
pub open spec fn base64_text(bytes: Seq<u8>) -> Seq<char>
    decreases bytes.len(),
{
    if bytes.len() == 0 {
        Seq::empty()
    } else if bytes.len() <= 3 {
        base64_group(bytes)
    } else {
        base64_group(bytes.take(3)) + base64_text(bytes.skip(3))
    }
}

/// Calls `base64::engine::general_purpose::STANDARD.encode`. Trusted: the
/// result is the padded standard base64 of `bytes`. The call panics when
/// the encoded length overflows `usize`, which `requires` rules out.
#[verifier::external_body]
fn base64_standard(bytes: &[u8]) -> (s: String)
    requires
        bytes@.len() <= usize::MAX / 2,
    ensures
        s@ == base64_text(bytes@),
{
    base64::engine::general_purpose::STANDARD.encode(bytes)
}

proof fn lemma_base64_digit(v: int)
    requires
        0 <= v < 64,
    ensures
        is_base64_char(base64_digit(v)),
{
}

proof fn lemma_base64_group(b: Seq<u8>)
    requires
        1 <= b.len() <= 3,
    ensures
        base64_group(b).len() == 4,
        forall|i: int| 0 <= i < 4 ==> is_base64_char(#[trigger] base64_group(b)[i]),
{
    let n: int = b[0] * 65536 + (if b.len() > 1 { b[1] as int } else { 0 }) * 256 + (if b.len() > 2 {
        b[2] as int
    } else {
        0
    });
    assert(0 <= n < 16777216);
    lemma_base64_digit(n / 262144);
    lemma_base64_digit((n / 4096) % 64);
    lemma_base64_digit((n / 64) % 64);
    lemma_base64_digit(n % 64);
}

/// Padded base64 takes four characters per started group of three bytes,
/// all from the standard alphabet or `=`.
pub proof fn lemma_base64_shape(bytes: Seq<u8>)
    ensures
        base64_text(bytes).len() == 4 * ((bytes.len() + 2) / 3),
        forall|i: int| 0 <= i < base64_text(bytes).len() ==> is_base64_char(#[trigger] base64_text(bytes)[i]),
    decreases bytes.len(),
{
    if bytes.len() == 0 {
    } else if bytes.len() <= 3 {
        lemma_base64_group(bytes);
    } else {
        let head: Seq<u8> = bytes.take(3);
        let rest: Seq<u8> = bytes.skip(3);
        lemma_base64_group(head);
        lemma_base64_shape(rest);
        let t: Seq<char> = base64_text(bytes);
        assert(t == base64_group(head) + base64_text(rest));
        assert forall|i: int| 0 <= i < t.len() implies is_base64_char(#[trigger] t[i]) by {
            if i < 4 {
                assert(t[i] == base64_group(head)[i]);
            } else {
                assert(t[i] == base64_text(rest)[i - 4]);
            }
        }
    }
}

/// The base64 text (standard alphabet, padded) of a compiled WASM function
/// module, as the registration statement embeds it.
pub fn udf_wasm_base64(wasm: &[u8]) -> (s: String)
    requires
        wasm@.len() <= usize::MAX / 2,
    ensures
        s@ == base64_text(wasm@),
        s@.len() == 4 * ((wasm@.len() + 2) / 3),
        forall|i: int| 0 <= i < s@.len() ==> is_base64_char(#[trigger] s@[i]),
{
    let s: String = base64_standard(wasm);
    proof {
        lemma_base64_shape(wasm@);
    }
    s
}

/// Law: the registration statement built from any module's base64 text holds
/// the module text unchanged between the opening and the closing quote, and
/// no quote inside it, so the module is one SQL string literal.
pub proof fn law_udf_literal_is_quote_free(text: Seq<char>)
    requires
        forall|i: int| 0 <= i < text.len() ==> is_base64_char(#[trigger] text[i]),
    ensures
        forall|i: int| 0 <= i < text.len() ==> #[trigger] text[i] != '\'',
        detect_instability_ddl(text).subrange(
            detect_instability_ddl(text).len() - text.len() - 1,
            detect_instability_ddl(text).len() - 1,
        ) == text,
        detect_instability_ddl(text).last() == '\'',
{
    reveal_strlit("'");
    let prefix: Seq<char> = "CREATE FUNCTION detect_instability(float8[]) RETURNS float8[] LANGUAGE wasm AS '"@;
    let d: Seq<char> = detect_instability_ddl(text);
    assert(d.subrange(d.len() - text.len() - 1, d.len() - 1) =~= text);
}

} // verus!
