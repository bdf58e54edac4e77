//! Which configuration files make up the settings, and in what order.
//!
//! Reading the files is the caller's business; the layering rule is here.

use vstd::prelude::*;
use vstd::string::StringExecFns;

verus! {

/// The settings that the configuration files provide.
#[derive(Clone, Debug)]
pub struct Settings {
    pub backup_file_name: String,
}

/// One configuration file to load.
#[derive(Debug, PartialEq, Eq)]
pub struct ConfigSource {
    pub name: String,
    /// Whether loading fails when the file is missing.
    pub required: bool,
}

/// Mathematical form of a [`ConfigSource`].
pub struct ConfigSourceView {
    pub name: Seq<char>,
    pub required: bool,
}

impl View for ConfigSource {
    type V = ConfigSourceView;

    open spec fn view(&self) -> ConfigSourceView {
        ConfigSourceView { name: self.name@, required: self.required }
    }
}

impl DeepView for ConfigSource {
    type V = ConfigSourceView;

    open spec fn deep_view(&self) -> ConfigSourceView {
        self@
    }
}

/// Whether `name` names a runtime environment: one of `production`,
/// `staging` and `development`.
pub open spec fn is_runtime_env(name: Seq<char>) -> bool {
    name == "production"@ || name == "staging"@ || name == "development"@
}

/// The runtime environment that the raw setting `value` selects: the value
/// itself where it names one, none otherwise.
pub open spec fn runtime_env_spec(value: Option<Seq<char>>) -> Option<Seq<char>> {
    match value {
        Some(name) => if is_runtime_env(name) {
            Some(name)
        } else {
            None
        },
        None => None,
    }
}

/// The configuration files in loading order, later ones overriding earlier
/// ones: the base file, then the runtime environment's file if an environment
/// is selected, then the local overrides. Only the base file is required.
pub open spec fn sources_spec(runtime_env: Option<Seq<char>>) -> Seq<ConfigSourceView> {
    let base = seq![ConfigSourceView { name: "config.json5"@, required: true }];
    let local = seq![ConfigSourceView { name: "config.local.json5"@, required: false }];
    match runtime_env {
        Some(name) => base + seq![
            ConfigSourceView { name: "config."@ + name + ".json5"@, required: false },
        ] + local,
        None => base + local,
    }
}

impl Settings {
    /// Selects the runtime environment from the raw value of the setting
    /// that names it, if that setting is present at all.
    pub fn get_runtime_env(value: Option<String>) -> (r: Option<String>)
        ensures
            r.deep_view() == runtime_env_spec(value.deep_view()),
    {
        match value {
            None => None,
            Some(name) => {
                if name == "production".to_owned() || name == "staging".to_owned() || name
                    == "development".to_owned() {
                    Some(name)
                } else {
                    None
                }
            },
        }
    }

    /// Lists the configuration files to load, in loading order.
    pub fn sources(runtime_env: Option<&String>) -> (r: Vec<ConfigSource>)
        ensures
            r.deep_view() == sources_spec(runtime_env.deep_view()),
    {
        let mut sources: Vec<ConfigSource> = Vec::new();
        sources.push(ConfigSource { name: "config.json5".to_owned(), required: true });
        match runtime_env {
            Some(name) => {
                let mut file = "config.".to_owned();
                file.append(name.as_str());
                file.append(".json5");
                sources.push(ConfigSource { name: file, required: false });
            },
            None => {},
        }
        sources.push(ConfigSource { name: "config.local.json5".to_owned(), required: false });
        assert(sources.deep_view() =~= sources_spec(runtime_env.deep_view()));
        sources
    }
}

} // verus!
