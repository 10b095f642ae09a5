//! What the registry reads of a plugin's JSON settings.

use vstd::prelude::*;
use vstd::string::*;

use crate::error::LoadError;

verus! {

/// The JSON settings of one plugin, as far as the registry reads them.
///
/// The settings must be a JSON object whose `"class"` member is a string naming
/// the plugin. The rest of the object is handed to the plugin itself.
pub enum PluginSettings {
    /// A JSON object; `class` is the value of its `"class"` member when that
    /// member is a JSON string, and `None` when it is absent or not a string.
    Object { class: Option<String> },
    /// Any other JSON value; `text` is its JSON text.
    Other { text: String },
}

/// The plugin class named by settings `v`, if they name one.
pub open spec fn plugin_class_of(v: PluginSettings) -> Option<Seq<char>> {
    match v {
        PluginSettings::Object { class: Some(c) } => Some(c@),
        _ => None,
    }
}

/// The message that rejects settings `v` that name no plugin class.
pub open spec fn settings_error_message(v: PluginSettings) -> Seq<char> {
    match v {
        PluginSettings::Other { text } => "plugin config must be an object, was "@ + text@,
        PluginSettings::Object { .. } => "plugin config must have 'class' key to indicate plugin SO file"@,
    }
}

/// Reads the plugin class from settings `v`. Fails with an invalid-format
/// error when `v` is not an object or has no string member `"class"`.
pub fn extract_plugin_class<E>(v: &PluginSettings) -> (r: Result<String, LoadError<E>>)
    ensures
        match r {
            Ok(c) => plugin_class_of(*v) == Some(c@),
            Err(e) => plugin_class_of(*v) is None && (e matches LoadError::InvalidFormat(m) && m@
                == settings_error_message(*v)),
        },
        *v matches PluginSettings::Object { class: Some(c) } ==> (r matches Ok(x) && x@ == c@),
{
    match v {
        PluginSettings::Other { text } => {
            let mut m = String::from_str("plugin config must be an object, was ");
            m.append(text.as_str());
            Err(LoadError::InvalidFormat(m))
        },
        PluginSettings::Object { class: Some(c) } => Ok(c.clone()),
        PluginSettings::Object { class: None } => Err(
            LoadError::InvalidFormat(
                String::from_str("plugin config must have 'class' key to indicate plugin SO file"),
            ),
        ),
    }
}

} // verus!
