//! Where a configuration file's format comes from, and the decisions of loading
//! and saving it: which text is parsed or written, and which error is reported.

use vstd::prelude::*;
use crate::format::{
    documented, format_for_extension, unsupported_extension_message, AutomaticSerde,
    ConfigSerde, SerdeFormat,
};
use crate::text::{joined, same_text};
use crate::types::Error;

verus! {

/// The index of the last `c` in `s`, or -1 if there is none.
pub open spec fn last_index(s: Seq<char>, c: char) -> int
    decreases s.len(),
{
    if s.len() == 0 {
        -1
    } else if s.last() == c {
        s.len() - 1
    } else {
        last_index(s.drop_last(), c)
    }
}

proof fn lemma_last_index_bounds(s: Seq<char>, c: char)
    ensures
        -1 <= last_index(s, c) < s.len(),
        last_index(s, c) >= 0 ==> s[last_index(s, c)] == c,
    decreases s.len(),
{
    if s.len() > 0 && s.last() != c {
        lemma_last_index_bounds(s.drop_last(), c);
    }
}

/// The file name of a path whose components `/` separates: its last component,
/// where empty components and `.` after the first do not count. A path that ends
/// in `..`, or has no component but `/` or a leading `.`, has none.
pub open spec fn file_name_of(path: Seq<char>) -> Option<Seq<char>>
    decreases path.len()
    via file_name_of_decreases
{
    if path.len() == 0 {
        None
    } else if path.last() == '/' {
        file_name_of(path.drop_last())
    } else {
        let i = last_index(path, '/');
        let seg = path.subrange(i + 1, path.len() as int);
        if seg == "."@ {
            if i < 0 {
                None
            } else {
                file_name_of(path.subrange(0, i))
            }
        } else if seg == ".."@ {
            None
        } else {
            Some(seg)
        }
    }
}

#[via_fn]
proof fn file_name_of_decreases(path: Seq<char>) {
    lemma_last_index_bounds(path, '/');
}

/// The index of the last `c` among the first `end` characters of `s`.
fn last_index_before(s: &str, c: char, end: usize) -> (r: Option<usize>)
    requires
        end <= s@.len(),
    ensures
        match r {
            Some(i) => i < end && i as int == last_index(s@.subrange(0, end as int), c),
            None => last_index(s@.subrange(0, end as int), c) == -1,
        },
{
    let mut i: usize = end;
    while i > 0
        invariant
            end <= s@.len(),
            i <= end,
            last_index(s@.subrange(0, end as int), c) == last_index(s@.subrange(0, i as int), c),
        decreases i,
    {
        if s.get_char(i - 1) == c {
            assert(s@.subrange(0, i as int).last() == c);
            return Some(i - 1);
        }
        assert(s@.subrange(0, i as int).drop_last() =~= s@.subrange(0, i - 1));
        i = i - 1;
    }
    assert(s@.subrange(0, 0) =~= Seq::<char>::empty());
    None
}

/// The file name of `path`; see [file_name_of].
pub fn path_file_name(path: &str) -> (r: Option<String>)
    ensures
        match file_name_of(path@) {
            Some(name) => r matches Some(s) && s@ == name,
            None => r is None,
        },
{
    let mut end: usize = path.unicode_len();
    assert(path@.subrange(0, end as int) =~= path@);
    loop
        invariant
            end <= path@.len(),
            file_name_of(path@) == file_name_of(path@.subrange(0, end as int)),
        decreases end,
    {
        let ghost p = path@.subrange(0, end as int);
        if end == 0 {
            return None;
        }
        if path.get_char(end - 1) == '/' {
            assert(p.drop_last() =~= path@.subrange(0, end - 1));
            end = end - 1;
        } else {
            let slash = last_index_before(path, '/', end);
            let start: usize = match slash {
                Some(i) => i + 1,
                None => 0,
            };
            proof {
                lemma_last_index_bounds(p, '/');
            }
            let seg = path.substring_char(start, end);
            assert(seg@ =~= p.subrange(last_index(p, '/') + 1, p.len() as int));
            if same_text(seg, ".") {
                match slash {
                    None => {
                        return None;
                    },
                    Some(i) => {
                        assert(p.subrange(0, i as int) =~= path@.subrange(0, i as int));
                        end = i;
                    },
                }
            } else if same_text(seg, "..") {
                return None;
            } else {
                return Some(String::from_str(seg));
            }
        }
    }
}

/// The extension of a file name: from its last `.` to its end, dot included.
pub open spec fn extension_of(name: Seq<char>) -> Option<Seq<char>> {
    let i = last_index(name, '.');
    if i < 0 {
        None
    } else {
        Some(name.subrange(i, name.len() as int))
    }
}

/// The extension of the file name of `path`.
pub open spec fn config_file_extension(path: Seq<char>) -> Option<Seq<char>> {
    match file_name_of(path) {
        Some(name) => extension_of(name),
        None => None,
    }
}

/// The format of the configuration file at `path`, if its extension names one.
pub open spec fn config_file_format(path: Seq<char>) -> Option<SerdeFormat> {
    match config_file_extension(path) {
        Some(ext) => format_for_extension(ext),
        None => None,
    }
}

/// The message for a configuration file whose name has no extension.
pub open spec fn no_extension_message() -> Seq<char> {
    "Config file without an extension is not supported"@
}

/// `e` is the error for a path whose format is unknown.
pub open spec fn is_format_error(path: Seq<char>, e: Error) -> bool {
    match config_file_extension(path) {
        None => e matches Error::UnsupportedConfigFileFormat { message }
            && message@ == no_extension_message(),
        Some(ext) => e matches Error::UnsupportedConfigFileFormat { message }
            && message@ == unsupported_extension_message(ext),
    }
}

/// A path between double quotes, as error messages show it.
pub open spec fn quoted(path: Seq<char>) -> Seq<char> {
    "\""@ + path + "\""@
}

/// `e` is a loading error with message `prefix` followed by the quoted path.
pub open spec fn is_loading_error(e: Error, prefix: Seq<char>, path: Seq<char>) -> bool {
    e matches Error::LoadingConfig { message, .. } && message@ == prefix + quoted(path)
}

/// `e` is a saving error with message `prefix` followed by the quoted path.
pub open spec fn is_saving_error(e: Error, prefix: Seq<char>, path: Seq<char>) -> bool {
    e matches Error::SavingConfig { message, .. } && message@ == prefix + quoted(path)
}

/// The cause of a loading or saving error.
pub open spec fn cause_of(e: Error) -> Error
    recommends
        e is LoadingConfig || e is SavingConfig,
{
    match e {
        Error::LoadingConfig { cause, .. } => *cause,
        Error::SavingConfig { cause, .. } => *cause,
        _ => e,
    }
}

/// `e` is an I/O error with the rendered cause `c`.
pub open spec fn is_io_error(e: Error, c: Seq<char>) -> bool {
    e matches Error::Io { cause, .. } && cause@ == c
}

/// The extension of the file name, from its last `.` on.
pub fn ext_of_file_name(name: &str) -> (r: Option<String>)
    ensures
        match extension_of(name@) {
            Some(ext) => r matches Some(s) && s@ == ext,
            None => r is None,
        },
{
    let n = name.unicode_len();
    assert(name@.subrange(0, n as int) =~= name@);
    match last_index_before(name, '.', n) {
        Some(i) => {
            proof {
                lemma_last_index_bounds(name@, '.');
            }
            Some(String::from_str(name.substring_char(i, n)))
        },
        None => None,
    }
}

/// The extension of the file name of `path`, from its last `.` on, dot included;
/// `None` where the path has no file name or the file name no `.`.
pub fn ext_with_dot(path: &str) -> (r: Option<String>)
    ensures
        match config_file_extension(path@) {
            Some(ext) => r matches Some(s) && s@ == ext,
            None => r is None,
        },
{
    match path_file_name(path) {
        Some(name) => ext_of_file_name(name.as_str()),
        None => None,
    }
}

/// The serde for the configuration file at `path`, by its extension.
pub fn serde_for_config_file(path: &str) -> (r: Result<AutomaticSerde, Error>)
    ensures
        match config_file_format(path@) {
            Some(f) => r matches Ok(s) && s.spec_format() == f,
            None => r matches Err(e) && is_format_error(path@, e),
        },
{
    match ext_with_dot(path) {
        Some(ext) => AutomaticSerde::for_file_extension(ext.as_str()),
        None => Err(
            Error::UnsupportedConfigFileFormat {
                message: String::from_str("Config file without an extension is not supported"),
            },
        ),
    }
}

/// A message followed by the quoted path.
fn message_with_path(prefix: &str, path: &str) -> (r: String)
    ensures
        r@ == prefix@ + quoted(path@),
{
    let head = joined(prefix, "\"");
    let with_path = joined(head.as_str(), path);
    let r = joined(with_path.as_str(), "\"");
    assert(r@ =~= prefix@ + quoted(path@));
    r
}

/// What reading a configuration file gave.
pub enum ReadOutcome {
    /// The whole text of the file.
    Text(String),
    /// There is no file at the path.
    NotFound,
    /// Reading failed otherwise; the rendered failure.
    Failed(String),
}

/// A configuration text to parse, and the serde that parses it.
pub struct LoadedText {
    pub serde: AutomaticSerde,
    pub text: String,
}

/// Decides what loading the configuration file at `path` comes to, given what
/// reading it gave: its format comes from its extension, a missing file is
/// absent, and any other failure is a loading error naming the path.
pub fn load_from_file(path: &str, read: ReadOutcome) -> (r: Result<Option<LoadedText>, Error>)
    ensures
        match config_file_format(path@) {
            None => r matches Err(e)
                && is_loading_error(e, "Error instantiating the automatic serde for file "@, path@)
                && is_format_error(path@, cause_of(e)),
            Some(f) => match read {
                ReadOutcome::NotFound => r matches Ok(None),
                ReadOutcome::Failed(c) => r matches Err(e)
                    && is_loading_error(e, "Error loading config from "@, path@)
                    && is_io_error(cause_of(e), c@),
                ReadOutcome::Text(t) => r matches Ok(Some(l))
                    && l.serde.spec_format() == f && l.text@ == t@,
            },
        },
{
    let serde = match serde_for_config_file(path) {
        Ok(s) => s,
        Err(e) => {
            let message = message_with_path("Error instantiating the automatic serde for file ", path);
            return Err(Error::LoadingConfig { message, cause: Box::new(e) });
        },
    };
    match read {
        ReadOutcome::NotFound => Ok(None),
        ReadOutcome::Failed(c) => {
            let message = message_with_path("Error loading config from ", path);
            let io_message = String::from_str("reading the config file");
            Err(
                Error::LoadingConfig {
                    message,
                    cause: Box::new(Error::Io { message: io_message, cause: c }),
                },
            )
        },
        ReadOutcome::Text(text) => Ok(Some(LoadedText { serde, text })),
    }
}

/// The result of parsing the text loaded from `path`: a parse failure becomes a
/// loading error naming the path, with the failure as its cause.
pub fn finish_load<C>(path: &str, parsed: Result<C, Error>) -> (r: Result<C, Error>)
    ensures
        match parsed {
            Ok(c) => r == Ok::<C, Error>(c),
            Err(p) => r matches Err(e)
                && is_loading_error(e, "Error deserializing config after loading from "@, path@)
                && cause_of(e) == p,
        },
{
    match parsed {
        Ok(c) => Ok(c),
        Err(p) => {
            let message = message_with_path("Error deserializing config after loading from ", path);
            Err(Error::LoadingConfig { message, cause: Box::new(p) })
        },
    }
}

/// What loading a configuration comes to: the loaded configuration, or, where
/// the file was absent, `default_config` with `true` to say that it must be saved
/// to the file before it is used.
pub fn loaded_or_default<C>(loaded: Option<C>, default_config: C) -> (r: (C, bool))
    ensures
        match loaded {
            Some(c) => r == (c, false),
            None => r == (default_config, true),
        },
{
    match loaded {
        Some(c) => (c, false),
        None => (default_config, true),
    }
}

/// The serde for saving to `path`; an unknown format is a saving error naming the path.
pub fn serde_for_saving(path: &str) -> (r: Result<AutomaticSerde, Error>)
    ensures
        match config_file_format(path@) {
            Some(f) => r matches Ok(s) && s.spec_format() == f,
            None => r matches Err(e)
                && is_saving_error(e, "Error instantiating the automatic serde for file "@, path@)
                && is_format_error(path@, cause_of(e)),
        },
{
    match serde_for_config_file(path) {
        Ok(s) => Ok(s),
        Err(e) => {
            let message = message_with_path("Error instantiating the automatic serde for file ", path);
            Err(Error::SavingConfig { message, cause: Box::new(e) })
        },
    }
}

/// The text to write to `path`: the configuration as `serde`'s format rendered it,
/// with `tail_comment` laid out after it. A rendering failure is a saving error
/// naming the path.
pub fn config_text_for_saving(
    serde: &AutomaticSerde,
    path: &str,
    rendered: Result<String, Error>,
    tail_comment: &str,
) -> (r: Result<String, Error>)
    ensures
        match rendered {
            Ok(body) => r matches Ok(t) && t@ == documented(serde.spec_format(), body@, tail_comment@),
            Err(p) => r matches Err(e)
                && is_saving_error(e, "Error serializing config for saving into "@, path@)
                && cause_of(e) == p,
        },
{
    match rendered {
        Ok(body) => Ok(serde.serialize_config(body, tail_comment)),
        Err(p) => {
            let message = message_with_path("Error serializing config for saving into ", path);
            Err(Error::SavingConfig { message, cause: Box::new(p) })
        },
    }
}

/// The error for a failed write of the configuration file at `path`.
pub fn write_failed(path: &str, failure: String) -> (r: Error)
    ensures
        is_saving_error(r, "Error saving config into "@, path@),
        is_io_error(cause_of(r), failure@),
{
    let message = message_with_path("Error saving config into ", path);
    let io_message = String::from_str("writing the config file");
    Error::SavingConfig { message, cause: Box::new(Error::Io { message: io_message, cause: failure }) }
}

} // verus!
