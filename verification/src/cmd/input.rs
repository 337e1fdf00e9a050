//! The format of the article read by `luatalk do <INPUT>`.

use vstd::prelude::*;

use crate::model::domain::opt_str_view;

verus! {

/// The input format given on the command line.
#[derive(Debug, Clone, Copy, PartialEq, Eq, Hash, Structural)]
pub enum InputFormatArg {
    /// Lua file returns LuaTalk Article
    Lua,
    /// JSON file of LuaTalk Article
    Json,
}

/// The format in which the input is read.
#[derive(Debug, Clone, Copy, PartialEq, Eq, Hash, Structural)]
pub enum InputFormat {
    Lua,
    Json,
}

impl Default for InputFormat {
    /// JSON, the format of the standard input.
    fn default() -> (r: InputFormat)
        ensures
            r == InputFormat::Json,
    {
        InputFormat::Json
    }
}

#[derive(Debug, Clone, PartialEq, Eq)]
pub enum InputFormatError {
    /// The format was not given and the extension of this file name tells none.
    UnknownExtension(String),
}

/// The extension that `std::path::Path::extension` finds in a path, where it
/// finds one.
pub uninterp spec fn path_extension(path: Seq<char>) -> Option<Seq<char>>;

/// `std::path::Path::extension` on a path given as a string; the extension of a
/// `&str` path is itself valid UTF-8, so `to_str` only converts it. The result
/// is named by `path_extension` and not stated further here.
#[verifier::external_body]
pub(crate) fn extension_of(path: &str) -> (r: Option<String>)
    ensures
        opt_str_view(r) == path_extension(path@),
{
    match std::path::Path::new(path).extension() {
        Some(ext) => match ext.to_str() {
            Some(e) => Some(e.to_owned()),
            None => None,
        },
        None => None,
    }
}

/// The stem that `std::path::Path::file_stem` finds in a path, where it finds
/// one.
pub uninterp spec fn path_file_stem(path: Seq<char>) -> Option<Seq<char>>;

/// `std::path::Path::file_stem` on a path given as a string; the stem of a
/// `&str` path is itself valid UTF-8, so `to_string_lossy` only converts it.
/// The result is named by `path_file_stem` and not stated further here.
#[verifier::external_body]
fn file_stem_of(path: &str) -> (r: Option<String>)
    ensures
        opt_str_view(r) == path_file_stem(path@),
{
    match std::path::Path::new(path).file_stem() {
        Some(stem) => Some(stem.to_string_lossy().into_owned()),
        None => None,
    }
}

/// The file name that `std::path::Path::file_name` finds in a path, where it
/// finds one.
pub uninterp spec fn path_file_name(path: Seq<char>) -> Option<Seq<char>>;

/// `std::path::Path::file_name` on a path given as a string; the file name of
/// a `&str` path is itself valid UTF-8, so `to_str` only converts it. The
/// result is named by `path_file_name` and not stated further here.
#[verifier::external_body]
pub(crate) fn file_name_of(path: &str) -> (r: Option<String>)
    ensures
        opt_str_view(r) == path_file_name(path@),
{
    match std::path::Path::new(path).file_name() {
        Some(name) => match name.to_str() {
            Some(n) => Some(n.to_owned()),
            None => None,
        },
        None => None,
    }
}

/// The stem of the input file's name, where the input is a file and its name
/// has a stem; else `default` (the standard input has no name).
pub fn file_stem_or(is_file: bool, filename: &str, default: &str) -> (r: String)
    ensures
        r@ == match (is_file, path_file_stem(filename@)) {
            (true, Some(stem)) => stem,
            _ => default@,
        },
{
    if is_file {
        match file_stem_of(filename) {
            Some(stem) => stem,
            None => default.to_owned(),
        }
    } else {
        default.to_owned()
    }
}

pub open spec fn spec_input_format_of(arg: InputFormatArg) -> InputFormat {
    match arg {
        InputFormatArg::Lua => InputFormat::Lua,
        InputFormatArg::Json => InputFormat::Json,
    }
}

/// The format of an input: the one given; else JSON for the standard input;
/// else Lua for a `.lua` file and JSON for a `.json` file; any other file is
/// refused.
pub open spec fn spec_infer_input_format(
    format: Option<InputFormatArg>,
    is_stdin: bool,
    filename: Seq<char>,
) -> Result<InputFormat, Seq<char>> {
    match format {
        Some(f) => Ok(spec_input_format_of(f)),
        None => if is_stdin {
            Ok(InputFormat::Json)
        } else {
            match path_extension(filename) {
                Some(ext) => if ext == "lua"@ {
                    Ok(InputFormat::Lua)
                } else if ext == "json"@ {
                    Ok(InputFormat::Json)
                } else {
                    Err(filename)
                },
                None => Err(filename),
            }
        },
    }
}

/// A format given on the command line is used as given, whether the input is
/// the standard input or a file, and whatever the file's name says.
pub proof fn lemma_given_format_is_used(is_stdin: bool, filename: Seq<char>)
    ensures
        spec_infer_input_format(Some(InputFormatArg::Json), is_stdin, filename) == Ok::<
            InputFormat,
            Seq<char>,
        >(InputFormat::Json),
        spec_infer_input_format(Some(InputFormatArg::Lua), is_stdin, filename) == Ok::<
            InputFormat,
            Seq<char>,
        >(InputFormat::Lua),
{
}

impl InputFormat {
    pub fn from(arg: InputFormatArg) -> (r: InputFormat)
        ensures
            r == spec_input_format_of(arg),
    {
        match arg {
            InputFormatArg::Lua => InputFormat::Lua,
            InputFormatArg::Json => InputFormat::Json,
        }
    }

    /// The format in which to read an input that is the standard input or the
    /// file `filename`; see `spec_infer_input_format`.
    pub fn infer(format: Option<InputFormatArg>, is_stdin: bool, filename: &str) -> (r: Result<
        InputFormat,
        InputFormatError,
    >)
        ensures
            match spec_infer_input_format(format, is_stdin, filename@) {
                Ok(f) => r == Ok::<InputFormat, InputFormatError>(f),
                Err(name) => r matches Err(InputFormatError::UnknownExtension(n)) && n@ == name,
            },
    {
        match format {
            Some(f) => Ok(InputFormat::from(f)),
            None => {
                if is_stdin {
                    Ok(InputFormat::default())
                } else {
                    match extension_of(filename) {
                        Some(ext) => {
                            if ext == "lua".to_owned() {
                                Ok(InputFormat::Lua)
                            } else if ext == "json".to_owned() {
                                Ok(InputFormat::Json)
                            } else {
                                Err(InputFormatError::UnknownExtension(filename.to_owned()))
                            }
                        },
                        None => Err(InputFormatError::UnknownExtension(filename.to_owned())),
                    }
                }
            },
        }
    }
}

} // verus!
