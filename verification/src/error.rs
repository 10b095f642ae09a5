//! Errors raised while plugins are located, loaded and set up.

use vstd::prelude::*;
use vstd::string::*;

verus! {

/// The error type of the dynamic loader (`libloading::Error`), carried as the
/// source of a loading failure.
#[verifier::external_type_specification]
#[verifier::external_body]
pub struct ExLoadingError(libloading::Error);

/// An I/O error (`std::io::Error`), carried as the source of an I/O failure.
#[verifier::external_type_specification]
#[verifier::external_body]
pub struct ExIoError(std::io::Error);

/// A JSON error (`serde_json::Error`), carried as the source of a settings failure.
#[verifier::external_type_specification]
#[verifier::external_body]
pub struct ExJsonError(serde_json::Error);

/// What went wrong with a plugin itself.
#[derive(Debug)]
pub enum PluginError {
    /// Reading plugin data failed.
    Io(std::io::Error),
    /// No file was found for plugin `name` among the `candidates` tried.
    NotFound { name: String, candidates: Vec<String> },
    /// The dynamic loader failed; `message` says what was being done.
    Libloading { source: libloading::Error, message: String },
    /// Plugin settings could not be read as JSON.
    SerdeError(serde_json::Error),
    /// Plugin data has an invalid format.
    InvalidDataFormat(String),
}

/// The text that `{:?}` gives for a list of strings, such as `["a", "b"]`.
pub uninterp spec fn debug_text_of_strings(items: Seq<Seq<char>>) -> Seq<char>;

/// Views of the strings in `items`.
pub open spec fn string_views(items: Seq<String>) -> Seq<Seq<char>> {
    items.map_values(|s: String| s@)
}

/// Renders `items` with the standard library's `Debug` formatting of a vector
/// of strings. The contract only names the text, as a function of the
/// strings alone; its exact form (brackets, quotes, escapes) is not stated.
#[verifier::external_body]
fn debug_text(items: &Vec<String>) -> (r: String)
    ensures
        r@ == debug_text_of_strings(string_views(items@)),
{
    format!("{:?}", items)
}

/// Message of a failure to open a library found among `candidates`.
pub open spec fn open_failure_message(candidates: Seq<Seq<char>>) -> Seq<char> {
    "failed to load library from: "@ + debug_text_of_strings(candidates)
}

/// Message of a library that lacks the plugin entry point, at path `path_text`
/// (the path as `{:?}` renders it).
pub open spec fn missing_entry_message(path_text: Seq<char>) -> Seq<char> {
    "no load_plugin symbol in "@ + path_text
}

impl PluginError {
    /// A dynamic-loader failure with no further message.
    pub fn from(source: libloading::Error) -> (r: PluginError)
        ensures
            r matches PluginError::Libloading { source: s, message: m } && s == source && m@
                == Seq::<char>::empty(),
    {
        PluginError::Libloading { source, message: String::new() }
    }

    /// The library file chosen among `candidates` could not be opened.
    pub fn open_failure(source: libloading::Error, candidates: &Vec<String>) -> (r: PluginError)
        ensures
            r matches PluginError::Libloading { source: s, message: m } && s == source && m@
                == open_failure_message(string_views(candidates@)),
    {
        let mut message = String::from_str("failed to load library from: ");
        let listed = debug_text(candidates);
        message.append(listed.as_str());
        PluginError::Libloading { source, message }
    }

    /// The opened library at `path_text` has no plugin entry point.
    pub fn missing_entry_point(source: libloading::Error, path_text: &str) -> (r: PluginError)
        ensures
            r matches PluginError::Libloading { source: s, message: m } && s == source && m@
                == missing_entry_message(path_text@),
    {
        let mut message = String::from_str("no load_plugin symbol in ");
        message.append(path_text);
        PluginError::Libloading { source, message }
    }
}

/// Why loading the plugins of a registry stopped.
///
/// `E` is the error type of the plugins' own code (factories, entry points and
/// setup), whose errors are passed on as they are.
#[derive(Debug)]
pub enum LoadError<E> {
    /// A plugin's settings are malformed.
    InvalidFormat(String),
    /// A plugin could not be found or loaded.
    Plugin(PluginError),
    /// Plugin code reported this error.
    Raised(E),
    /// `cause`, while doing what `context` says.
    WithContext { context: String, cause: Box<LoadError<E>> },
}

impl<E> LoadError<E> {
    /// Wraps the error with a description of what was being done.
    pub fn with_context(self, context: String) -> (r: LoadError<E>)
        ensures
            r == (LoadError::WithContext { context, cause: Box::new(self) }),
    {
        LoadError::WithContext { context, cause: Box::new(self) }
    }
}

} // verus!
