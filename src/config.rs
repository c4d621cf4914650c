use vstd::prelude::*;

use std::collections::HashMap;

verus! {

/// Settings of one module of the tool.
#[derive(Debug)]
pub struct ModuleConfig {
    pub enabled: bool,
    pub settings: HashMap<String, String>,
}

/// Settings of the tool, by module name.
#[derive(Debug)]
pub struct AppConfig {
    pub version: String,
    pub modules: HashMap<String, ModuleConfig>,
}

} // verus!
