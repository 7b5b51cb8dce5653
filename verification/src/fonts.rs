//! Custom fonts for browser rendering: the cache file name of a font source,
//! the family name it is declared under, the size limit of a download and
//! the CSS that declares the cached fonts.
//!
//! Fetching and writing the files is left to the caller; this module decides
//! what is fetched from where, what is accepted and what CSS results.
use crate::conversion::starts_with;
use crate::paths::{file_extension_of, file_stem_of, path_extension, path_file_stem};
use crate::text::{
    after_last, after_last_index_of, before_first, chars_of, decimal, first_index_of, lowercase,
    owned, push_char, push_decimal, string_of_range, to_lower,
};
use vstd::prelude::*;
use vstd::string::*;
use vstd::utf8::*;

verus! {

/// The largest font download accepted, in bytes (5 MiB).
pub const MAX_FONT_BYTES: usize = 5242880;

/// The family name used when a font source names no file.
pub open spec fn default_family() -> Seq<char> {
    "kroki-custom-font"@
}

/// The SHA-256 digest of `data`, as the sha2 crate computes it.
pub uninterp spec fn sha256_digest(data: Seq<u8>) -> Seq<u8>;

/// The lowercase hexadecimal digit of a value below 16.
pub open spec fn hex_digit(d: u8) -> char {
    if d < 10 {
        ((d + 48) as u32) as char
    } else {
        ((d + 87) as u32) as char
    }
}

/// Bytes written as lowercase hexadecimal, two digits each, high half first.
pub open spec fn hex_text(data: Seq<u8>) -> Seq<char>
    decreases data.len(),
{
    if data.len() == 0 {
        Seq::empty()
    } else {
        seq![hex_digit(data[0] / 16), hex_digit(data[0] % 16)] + hex_text(data.drop_first())
    }
}

/// Calls `Sha256::digest` of the sha2 crate; the digest is named by
/// `sha256_digest` and has 32 bytes.
#[verifier::external_body]
fn sha256_of(data: &[u8]) -> (r: Vec<u8>)
    ensures
        r@ == sha256_digest(data@),
        r@.len() == 32,
{
    <sha2::Sha256 as sha2::Digest>::digest(data).to_vec()
}

/// Calls `hex::encode`: each byte as two lowercase hexadecimal digits.
#[verifier::external_body]
fn hex_of(data: &[u8]) -> (r: String)
    ensures
        r@ == hex_text(data@),
{
    hex::encode(data)
}

/// The file-name part of a font source: after the last `/`, before the
/// first `?` of that, before the first `#` of that.
pub open spec fn source_file_part(source: Seq<char>) -> Seq<char> {
    before_first(before_first(after_last(source, '/'), '?'), '#')
}

/// The family a font source is declared under: the stem of its file-name
/// part (when there is a non-empty one, else `kroki-custom-font`), with `-`
/// and `_` turned into spaces.
pub open spec fn font_family_spec(source: Seq<char>) -> Seq<char> {
    let stem = match path_file_stem(source_file_part(source)) {
        Some(s) => if s.len() > 0 {
            s
        } else {
            default_family()
        },
        None => default_family(),
    };
    stem.map_values(|c: char| if c == '-' || c == '_' { ' ' } else { c })
}

/// The extension of a font source's cache file: that of its file-name part,
/// else `ttf`, lowercased.
pub open spec fn cache_extension(source: Seq<char>) -> Seq<char> {
    lowercase(
        match path_extension(source_file_part(source)) {
            Some(e) => e,
            None => "ttf"@,
        },
    )
}

/// The cache file name of a font source: the SHA-256 of its UTF-8 bytes in
/// hexadecimal, a dot and the extension.
pub open spec fn cache_file_name_spec(source: Seq<char>) -> Seq<char> {
    hex_text(sha256_digest(encode_utf8(source))) + "."@ + cache_extension(source)
}

/// The file-name part of a font source.
pub fn source_file_part_of(source: &str) -> (r: String)
    ensures
        r@ == source_file_part(source@),
{
    let v = chars_of(source);
    let start = after_last_index_of(&v, '/');
    proof {
        crate::text::lemma_after_last_pos(v@, '/');
    }
    let tail = string_of_range(&v, start, v.len());
    let tv = chars_of(tail.as_str());
    let q = first_index_of(&tv, '?');
    proof {
        crate::text::lemma_first_pos(tv@, '?');
    }
    let head = string_of_range(&tv, 0, q);
    let hv = chars_of(head.as_str());
    let h = first_index_of(&hv, '#');
    proof {
        crate::text::lemma_first_pos(hv@, '#');
    }
    string_of_range(&hv, 0, h)
}

/// The family name a font source is declared under in the generated CSS.
pub fn font_family_from_url(source: &str) -> (r: String)
    ensures
        r@ == font_family_spec(source@),
{
    let part = source_file_part_of(source);
    let stem = match file_stem_of(part.as_str()) {
        Some(s) => if s.as_str().is_empty() {
            owned("kroki-custom-font")
        } else {
            s
        },
        None => owned("kroki-custom-font"),
    };
    let v = chars_of(stem.as_str());
    let mut out = String::new();
    for i in 0..v.len()
        invariant
            v@ == stem@,
            out@ == v@.subrange(0, i as int).map_values(
                |c: char| if c == '-' || c == '_' { ' ' } else { c },
            ),
    {
        let c = v[i];
        let d = if c == '-' || c == '_' {
            ' '
        } else {
            c
        };
        push_char(&mut out, d);
        assert(v@.subrange(0, i + 1).map_values(|c: char| if c == '-' || c == '_' { ' ' } else { c })
            =~= v@.subrange(0, i as int).map_values(
            |c: char| if c == '-' || c == '_' { ' ' } else { c },
        ).push(d));
    }
    assert(v@.subrange(0, v@.len() as int) =~= v@);
    out
}

/// The name of the cache file a font source is stored under.
pub fn safe_file_name(source: &str) -> (r: String)
    ensures
        r@ == cache_file_name_spec(source@),
{
    let digest = sha256_of(source.as_bytes());
    let mut name = hex_of(digest.as_slice());
    let part = source_file_part_of(source);
    let ext = match file_extension_of(part.as_str()) {
        Some(e) => e,
        None => owned("ttf"),
    };
    let lower = to_lower(ext.as_str());
    name.append(".");
    name.append(lower.as_str());
    name
}

/// The message for a font download above the size limit.
pub open spec fn oversize_font_message(actual: usize) -> Seq<char> {
    "font payload too large ("@ + decimal(actual as nat)
        + " bytes). maximum allowed is 5242880 bytes"@
}

/// Accepts a font download of `actual` bytes when it is within the limit.
pub fn validate_font_size(actual: usize) -> (r: Result<(), String>)
    ensures
        actual <= MAX_FONT_BYTES ==> r is Ok,
        actual > MAX_FONT_BYTES ==> (r matches Err(m) && m@ == oversize_font_message(actual)),
{
    if actual > MAX_FONT_BYTES {
        let mut m = owned("font payload too large (");
        push_decimal(&mut m, actual as u64);
        m.append(" bytes). maximum allowed is 5242880 bytes");
        return Err(m);
    }
    Ok(())
}

/// Whether a font source is downloaded (an `http://` or `https://` URL)
/// rather than read from a local file.
pub fn is_remote_font(source: &str) -> (r: bool)
    ensures
        r == (starts_with(source@, "http://"@) || starts_with(source@, "https://"@)),
{
    let v = chars_of(source);
    let http = chars_of("http://");
    let https = chars_of("https://");
    has_prefix(&v, &http) || has_prefix(&v, &https)
}

fn has_prefix(v: &Vec<char>, p: &Vec<char>) -> (r: bool)
    ensures
        r == starts_with(v@, p@),
{
    if p.len() > v.len() {
        return false;
    }
    let mut i: usize = 0;
    while i < p.len()
        invariant
            p@.len() <= v@.len(),
            i <= p@.len(),
            forall|j: int| 0 <= j < i ==> v@[j] == p@[j],
        decreases p.len() - i,
    {
        if v[i] != p[i] {
            assert(v@.subrange(0, p@.len() as int)[i as int] != p@[i as int]);
            return false;
        }
        i = i + 1;
    }
    assert(v@.subrange(0, p@.len() as int) =~= p@);
    true
}

/// The directory fonts are cached in: the configured one, else
/// `.kroki-cache/fonts`.
pub fn font_cache_dir(configured: Option<String>) -> (r: String)
    ensures
        r@ == (match configured {
            Some(d) => d@,
            None => ".kroki-cache/fonts"@,
        }),
{
    match configured {
        Some(d) => d,
        None => owned(".kroki-cache/fonts"),
    }
}

/// A path with every `\` doubled.
pub open spec fn escape_backslashes(s: Seq<char>) -> Seq<char>
    decreases s.len(),
{
    if s.len() == 0 {
        s
    } else {
        escape_backslashes(s.drop_last()) + if s.last() == '\\' {
            seq!['\\', '\\']
        } else {
            seq![s.last()]
        }
    }
}

/// The `@font-face` rule declaring `family` from the local file `path`.
pub open spec fn font_face_rule(family: Seq<char>, path: Seq<char>) -> Seq<char> {
    "@font-face{font-family:'"@ + family + "';src:url('file://"@ + escape_backslashes(path)
        + "');}\n"@
}

/// The rules for the first `n` fonts, in order.
pub open spec fn font_rules(sources: Seq<String>, paths: Seq<String>, n: nat) -> Seq<char>
    decreases n,
{
    if n == 0 {
        Seq::empty()
    } else {
        font_rules(sources, paths, (n - 1) as nat) + font_face_rule(
            font_family_spec(sources[n - 1]@),
            paths[n - 1]@,
        )
    }
}

fn push_escaped_path(css: &mut String, path: &str)
    ensures
        final(css)@ == old(css)@ + escape_backslashes(path@),
{
    let v = chars_of(path);
    let ghost start = css@;
    for i in 0..v.len()
        invariant
            v@ == path@,
            css@ == start + escape_backslashes(v@.subrange(0, i as int)),
    {
        let ghost before = v@.subrange(0, i as int);
        assert(v@.subrange(0, i + 1).drop_last() =~= before);
        if v[i] == '\\' {
            push_char(css, '\\');
            push_char(css, '\\');
        } else {
            push_char(css, v[i]);
        }
        assert(css@ =~= start + escape_backslashes(v@.subrange(0, i + 1)));
    }
    assert(v@.subrange(0, v@.len() as int) =~= v@);
}

/// The CSS declaring the fonts of `sources`, each cached at the local path of
/// the same position in `paths`; `None` when there are no fonts.
pub fn prepare_font_css(sources: &Vec<String>, paths: &Vec<String>) -> (r: Option<String>)
    requires
        sources@.len() == paths@.len(),
    ensures
        sources@.len() == 0 ==> r is None,
        sources@.len() > 0 ==> (r matches Some(css) && css@ == font_rules(
            sources@,
            paths@,
            sources@.len(),
        )),
{
    if sources.len() == 0 {
        return None;
    }
    let mut css = String::new();
    for i in 0..sources.len()
        invariant
            sources@.len() == paths@.len(),
            css@ == font_rules(sources@, paths@, i as nat),
    {
        let family = font_family_from_url(sources[i].as_str());
        css.append("@font-face{font-family:'");
        css.append(family.as_str());
        css.append("';src:url('file://");
        push_escaped_path(&mut css, paths[i].as_str());
        css.append("');}\n");
        assert(css@ =~= font_rules(sources@, paths@, (i + 1) as nat));
    }
    Some(css)
}

} // verus!
