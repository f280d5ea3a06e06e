//! The list of configuration profiles and the selected one.

use vstd::prelude::*;
use crate::text::{copy_string, push_str, string_from_str};
use crate::utils::config::app_config::AppConfig;

verus! {

/// The configuration profiles, and the index of the selected one.
#[derive(Clone)]
pub struct ConfigManager {
    pub configs: Vec<AppConfig>,
    pub selected_config_index: usize,
}

/// The file name a profile is saved under: its name (or `default`) and
/// `.toml`.
pub open spec fn profile_file_name(c: AppConfig) -> Seq<char> {
    match c.name {
        Some(n) => n@ + ".toml"@,
        None => "default.toml"@,
    }
}

impl ConfigManager {
    /// Adds a profile and selects it.
    pub fn add_config(&mut self, config: AppConfig)
        requires
            old(self).configs@.len() < usize::MAX,
        ensures
            final(self).configs@ == old(self).configs@.push(config),
            final(self).selected_config_index == old(self).configs@.len(),
    {
        self.configs.push(config);
        self.selected_config_index = self.configs.len() - 1;
    }

    /// The selected profile and the file name it is saved under; an error
    /// when no profile is selected.
    pub fn save_current_config(&self) -> (r: Result<(&AppConfig, String), String>)
        ensures
            self.selected_config_index < self.configs@.len() ==> (r matches Ok((c, f))
                && *c == self.configs@[self.selected_config_index as int]
                && f@ == profile_file_name(*c)),
            self.selected_config_index >= self.configs@.len() ==> (r matches Err(e) && e@
                == "No config selected to save"@),
    {
        if self.selected_config_index < self.configs.len() {
            let c = &self.configs[self.selected_config_index];
            let mut f = match &c.name {
                Some(n) => copy_string(n),
                None => string_from_str("default"),
            };
            push_str(&mut f, ".toml");
            proof {
                reveal_strlit("default");
                reveal_strlit(".toml");
                reveal_strlit("default.toml");
                assert("default"@ + ".toml"@ =~= "default.toml"@);
            }
            Ok((c, f))
        } else {
            Err(string_from_str("No config selected to save"))
        }
    }
}

} // verus!
