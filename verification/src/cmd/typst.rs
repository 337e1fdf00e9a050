//! The decisions of `luatalk do <INPUT> typst-compile`: the output format and
//! path handed to typst-cli, and the check of typst-cli's version.

use vstd::prelude::*;

use crate::cmd::input::{extension_of, file_name_of, path_extension, path_file_name};
use crate::cmd::locale::{lowercase, to_lowercase};
use crate::cmd::output::{has_placeholder, spec_has_placeholder};
use crate::cmd::output::DEFAULT_OUTPUT_STEM;
use crate::model::domain::opt_str_view;
use crate::model::dto::{base32hex_nopad, encode_base32hex_nopad};

verus! {

/// The output format given on the command line.
#[derive(Debug, Clone, Copy, PartialEq, Eq, Hash, Structural)]
pub enum TypstCompileFormatArg {
    Pdf,
    Png,
    Svg,
}

/// The format typst-cli compiles to: one PDF file, or one PNG or SVG file per page.
#[derive(Debug, Clone, Copy, PartialEq, Eq, Hash, Structural)]
pub enum TypstCompileFormat {
    Pdf,
    Png,
    Svg,
}

#[derive(Debug, Clone, PartialEq, Eq)]
pub enum TypstCompileError {
    /// No format was given, and there is no output file extension to infer it from.
    NoExtension,
    /// No format was given, and the output file extension names none.
    UnknownExtension(String),
}

pub open spec fn spec_format_name(format: TypstCompileFormat) -> Seq<char> {
    match format {
        TypstCompileFormat::Pdf => "pdf"@,
        TypstCompileFormat::Png => "png"@,
        TypstCompileFormat::Svg => "svg"@,
    }
}

impl TypstCompileFormat {
    pub fn from(arg: TypstCompileFormatArg) -> (r: TypstCompileFormat)
        ensures
            r == match arg {
                TypstCompileFormatArg::Pdf => TypstCompileFormat::Pdf,
                TypstCompileFormatArg::Png => TypstCompileFormat::Png,
                TypstCompileFormatArg::Svg => TypstCompileFormat::Svg,
            },
    {
        match arg {
            TypstCompileFormatArg::Pdf => TypstCompileFormat::Pdf,
            TypstCompileFormatArg::Png => TypstCompileFormat::Png,
            TypstCompileFormatArg::Svg => TypstCompileFormat::Svg,
        }
    }

    /// The name of the format, as typst-cli's `--format` takes it.
    pub fn as_str(self) -> (r: &'static str)
        ensures
            r@ == spec_format_name(self),
    {
        match self {
            TypstCompileFormat::Pdf => "pdf",
            TypstCompileFormat::Png => "png",
            TypstCompileFormat::Svg => "svg",
        }
    }
}

/// The output format: the one given, else the one named by the output file's
/// extension, in any case (`pdf`, `png` or `svg`).
pub open spec fn spec_compile_format(
    format: Option<TypstCompileFormat>,
    output: Option<Seq<char>>,
) -> Result<TypstCompileFormat, Option<Seq<char>>> {
    match format {
        Some(f) => Ok(f),
        None => match output {
            None => Err(None),
            Some(o) => match path_extension(o) {
                None => Err(None),
                Some(ext) => if lowercase(ext) == "pdf"@ {
                    Ok(TypstCompileFormat::Pdf)
                } else if lowercase(ext) == "png"@ {
                    Ok(TypstCompileFormat::Png)
                } else if lowercase(ext) == "svg"@ {
                    Ok(TypstCompileFormat::Svg)
                } else {
                    Err(Some(ext))
                },
            },
        },
    }
}

/// The output format: see `spec_compile_format`.
pub fn compile_format(format: Option<TypstCompileFormat>, output: Option<&str>) -> (r: Result<
    TypstCompileFormat,
    TypstCompileError,
>)
    ensures
        match spec_compile_format(
            format,
            match output {
                Some(o) => Some(o@),
                None => None,
            },
        ) {
            Ok(f) => r == Ok::<TypstCompileFormat, TypstCompileError>(f),
            Err(None) => r == Err::<TypstCompileFormat, TypstCompileError>(
                TypstCompileError::NoExtension,
            ),
            Err(Some(ext)) => r matches Err(TypstCompileError::UnknownExtension(e)) && e@ == ext,
        },
{
    match format {
        Some(f) => Ok(f),
        None => match output {
            None => Err(TypstCompileError::NoExtension),
            Some(o) => match extension_of(o) {
                None => Err(TypstCompileError::NoExtension),
                Some(ext) => {
                    let lower = to_lowercase(ext.as_str());
                    if lower == "pdf".to_owned() {
                        Ok(TypstCompileFormat::Pdf)
                    } else if lower == "png".to_owned() {
                        Ok(TypstCompileFormat::Png)
                    } else if lower == "svg".to_owned() {
                        Ok(TypstCompileFormat::Svg)
                    } else {
                        Err(TypstCompileError::UnknownExtension(ext))
                    }
                },
            },
        },
    }
}

/// The output path handed to typst-cli: for PDF the given output, else the
/// input's stem with `.pdf`. PNG and SVG give one image per page, and typst-cli
/// names them by a page number template: so the given output where it holds a
/// page number placeholder, else the files `<stem>_{0p}.<format>` in the
/// directory that the output (else the input's stem) names.
pub open spec fn spec_compile_output(
    format: TypstCompileFormat,
    output: Option<Seq<char>>,
    input_stem: Seq<char>,
) -> Seq<char> {
    match format {
        TypstCompileFormat::Pdf => match output {
            Some(o) => o,
            None => input_stem + "."@ + "pdf"@,
        },
        _ => match output {
            Some(o) => if spec_has_placeholder(o) {
                o
            } else {
                o + "/"@ + input_stem + "_{0p}."@ + spec_format_name(format)
            },
            None => input_stem + "/"@ + input_stem + "_{0p}."@ + spec_format_name(format),
        },
    }
}

/// The output path handed to typst-cli: see `spec_compile_output`.
pub fn compile_output(format: TypstCompileFormat, output: Option<&str>, input_stem: &str) -> (r: String)
    ensures
        r@ == spec_compile_output(
            format,
            match output {
                Some(o) => Some(o@),
                None => None,
            },
            input_stem@,
        ),
{
    match format {
        TypstCompileFormat::Pdf => match output {
            Some(o) => o.to_owned(),
            None => {
                let mut path = input_stem.to_owned();
                path.append(".");
                path.append(format.as_str());
                path
            },
        },
        TypstCompileFormat::Png | TypstCompileFormat::Svg => {
            let maybe_format_str = output.is_some();
            let path = match output {
                Some(o) => o,
                None => input_stem,
            };
            if maybe_format_str && has_placeholder(path) {
                path.to_owned()
            } else {
                let mut out = path.to_owned();
                out.append("/");
                out.append(input_stem);
                out.append("_{0p}.");
                out.append(format.as_str());
                out
            }
        },
    }
}

// ---------------------------------------------------------------------------
// The files of `luatalk do <INPUT> typst`
// ---------------------------------------------------------------------------

/// The files that `luatalk do <INPUT> typst` writes for an output stem: the
/// JSON data `<STEM>.json`, the Typst file `<STEM>.typ`, and the name by which
/// the Typst file reads the data, which is the JSON file's name as
/// `std::path::Path::file_name` finds it (both files stand in one directory);
/// `None` where it finds none.
pub fn typst_output_files(stem: &str) -> (r: (String, String, Option<String>))
    ensures
        r.0@ == stem@ + ".json"@,
        r.1@ == stem@ + ".typ"@,
        opt_str_view(r.2) == path_file_name(r.0@),
{
    let mut json = stem.to_owned();
    json.append(".json");
    let mut typ = stem.to_owned();
    typ.append(".typ");
    let data = file_name_of(json.as_str());
    (json, typ, data)
}

// ---------------------------------------------------------------------------
// typst-cli's version
// ---------------------------------------------------------------------------

/// The pattern of a version number in the output of `typst --version`.
pub const VERSION_PATTERN: &'static str =
    "(?i)(?:version\\s+|v)?(?P<version>\\d+\\.\\d+\\.\\d+(?:-[a-zA-Z0-9.]+)?(?:\\+[a-zA-Z0-9.]+)?)";

/// The name of the capture group of the version number in `VERSION_PATTERN`.
pub const VERSION_GROUP: &'static str = "version";

/// The version requirement on typst-cli.
pub const TYPST_VERSION_REQ: &'static str = ">=0.15.0";

/// What `regex::Regex::new(pattern)`, `Regex::captures(text)` and
/// `Captures::name(group)` give: `None` where the pattern is refused, else the
/// text of the group in the first match, if any.
pub uninterp spec fn regex_named_capture(pattern: Seq<char>, text: Seq<char>, group: Seq<char>) -> Option<Option<Seq<char>>>;

/// `regex::Regex::new`, `Regex::captures` and `Captures::name`; the result is
/// named by `regex_named_capture` and not stated further here.
#[verifier::external_body]
fn named_capture(pattern: &str, text: &str, group: &str) -> (r: Option<Option<String>>)
    ensures
        match (r, regex_named_capture(pattern@, text@, group@)) {
            (None, None) => true,
            (Some(c), Some(d)) => opt_str_view(c) == d,
            _ => false,
        },
{
    match regex::Regex::new(pattern) {
        Ok(re) => match re.captures(text) {
            Some(caps) => match caps.name(group) {
                Some(m) => Some(Some(m.as_str().to_owned())),
                None => Some(None),
            },
            None => Some(None),
        },
        Err(_) => None,
    }
}

/// Whether `semver::Version::parse(version)` satisfies
/// `semver::VersionReq::parse(req)` (`VersionReq::matches`); `None` where either
/// does not parse.
pub uninterp spec fn semver_matches(req: Seq<char>, version: Seq<char>) -> Option<bool>;

/// `semver::VersionReq::parse`, `semver::Version::parse` and
/// `VersionReq::matches`; the result is named by `semver_matches` and not
/// stated further here.
#[verifier::external_body]
fn version_matches(req: &str, version: &str) -> (r: Option<bool>)
    ensures
        r == semver_matches(req@, version@),
{
    match (semver::VersionReq::parse(req), semver::Version::parse(version)) {
        (Ok(req), Ok(version)) => Some(req.matches(&version)),
        _ => None,
    }
}

#[derive(Debug, Clone, PartialEq, Eq)]
pub enum VersionError {
    /// No version number found in this output.
    NotFound(String),
    /// The version number found does not parse as a semantic version.
    Invalid(String),
    /// The version found does not satisfy the requirement.
    Unsatisfied(String),
}

/// The version number in the output of `typst --version`, where there is one.
pub open spec fn spec_extract_version(output: Seq<char>) -> Option<Seq<char>> {
    match regex_named_capture(VERSION_PATTERN@, output, VERSION_GROUP@) {
        Some(Some(v)) => Some(v),
        _ => None,
    }
}

/// The version number in the output of `typst --version`.
pub fn extract_version(output: &str) -> (r: Result<String, VersionError>)
    ensures
        match spec_extract_version(output@) {
            Some(v) => r matches Ok(s) && s@ == v,
            None => r matches Err(VersionError::NotFound(o)) && o@ == output@,
        },
{
    match named_capture(VERSION_PATTERN, output, VERSION_GROUP) {
        Some(Some(v)) => Ok(v),
        _ => Err(VersionError::NotFound(output.to_owned())),
    }
}

/// Checks the output of `typst --version` against the requirement on typst-cli.
pub fn check_typst_cli_version(output: &str) -> (r: Result<(), VersionError>)
    ensures
        match spec_extract_version(output@) {
            None => r matches Err(VersionError::NotFound(o)) && o@ == output@,
            Some(v) => match semver_matches(TYPST_VERSION_REQ@, v) {
                Some(true) => r is Ok,
                Some(false) => r matches Err(VersionError::Unsatisfied(s)) && s@ == v,
                None => r matches Err(VersionError::Invalid(s)) && s@ == v,
            },
        },
{
    let version = match extract_version(output) {
        Ok(v) => v,
        Err(e) => return Err(e),
    };
    match version_matches(TYPST_VERSION_REQ, version.as_str()) {
        Some(true) => Ok(()),
        Some(false) => Err(VersionError::Unsatisfied(version)),
        None => Err(VersionError::Invalid(version)),
    }
}

// ---------------------------------------------------------------------------
// Names of the temporary files handed to typst-cli
// ---------------------------------------------------------------------------

/// The 64-bit XXH3 hash (`xxhash_rust::xxh3::xxh3_64`) of some bytes.
pub uninterp spec fn xxh3_64(bytes: Seq<u8>) -> u64;

/// `xxhash_rust::xxh3::xxh3_64`; the hash is named by `xxh3_64` and not stated
/// further here.
#[verifier::external_body]
fn hash_xxh3_64(bytes: &[u8]) -> (r: u64)
    ensures
        r == xxh3_64(bytes@),
{
    xxhash_rust::xxh3::xxh3_64(bytes)
}

/// The last `n` bytes of a number, most significant first (big-endian).
pub open spec fn be_bytes(x: nat, n: nat) -> Seq<u8>
    decreases n,
{
    if n == 0 {
        seq![]
    } else {
        be_bytes(x / 256, (n - 1) as nat).push((x % 256) as u8)
    }
}

/// The 8 bytes of a number in big-endian order, as `u64::to_be_bytes` gives them.
fn to_be_bytes(x: u64) -> (r: Vec<u8>)
    ensures
        r@ == be_bytes(x as nat, 8),
        r@.len() == 8,
{
    let mut out: Vec<u8> = Vec::new();
    let mut y: u64 = x;
    let mut j: usize = 0;
    while j < 8
        invariant
            j <= 8,
            out@.len() == j,
            be_bytes(x as nat, 8) == be_bytes(y as nat, (8 - j) as nat) + out@,
        decreases 8 - j,
    {
        let ghost before = out@;
        let ghost m = (8 - j) as nat;
        out.insert(0, (y % 256) as u8);
        proof {
            assert(be_bytes(y as nat, m) == be_bytes((y / 256) as nat, (m - 1) as nat).push(
                (y % 256) as u8,
            ));
            assert(be_bytes((y / 256) as nat, (m - 1) as nat).push((y % 256) as u8) + before
                =~= be_bytes((y / 256) as nat, (m - 1) as nat) + out@);
        }
        y = y / 256;
        j = j + 1;
    }
    proof {
        assert(be_bytes(y as nat, 0) + out@ =~= out@);
    }
    out
}

/// The prefix of the names of the temporary files for an article whose JSON
/// form is `article_json`: `output-`, the Base32hex form of the big-endian
/// bytes of the article's XXH3 hash, and `-`.
pub open spec fn spec_temp_file_prefix(article_json: Seq<u8>) -> Seq<char> {
    DEFAULT_OUTPUT_STEM@ + "-"@ + base32hex_nopad(be_bytes(xxh3_64(article_json) as nat, 8)) + "-"@
}

/// The prefix of the names of the temporary files for an article, see
/// `spec_temp_file_prefix`.
pub fn temp_file_prefix(article_json: &[u8]) -> (r: String)
    ensures
        r@ == spec_temp_file_prefix(article_json@),
{
    let hash = hash_xxh3_64(article_json);
    let bytes = to_be_bytes(hash);
    let encoded = encode_base32hex_nopad(bytes.as_slice());
    let mut prefix = DEFAULT_OUTPUT_STEM.to_owned();
    prefix.append("-");
    prefix.append(encoded.as_str());
    prefix.append("-");
    prefix
}

} // verus!
