//! Advanced settings of the program, given by environment variables with the
//! prefix `LUATALK__` (read by the program, e.g. `LUATALK__DO_LUA__NO_DEFAULT_LIB=1`).

use vstd::prelude::*;

verus! {

/// Application configuration for advanced settings.
#[derive(Debug, Clone)]
pub struct AppConfig {
    pub do_lua: DoLuaConfig,
    pub do_json: DoJsonConfig,
    pub do_typst_compile: DoTypstCompileConfig,
}

/// Configuration for `do <INPUT>` on Lua input.
#[derive(Debug, Clone)]
pub struct DoLuaConfig {
    /// To disable loading the `talk.lua` module.
    pub no_default_lib: bool,
    /// Additional Lua search paths, put before the default search paths.
    pub additional_path: String,
}

/// Configuration for the commands that write JSON.
#[derive(Debug, Clone)]
pub struct DoJsonConfig {
    /// To minify the JSON output.
    pub minify: bool,
}

/// Configuration for `do <INPUT> typst-compile`.
#[derive(Debug, Clone)]
pub struct DoTypstCompileConfig {
    /// The command to run typst-cli; empty for `typst`.
    pub typst_command: String,
}

impl AppConfig {
    pub fn do_lua(&self) -> (r: &DoLuaConfig)
        ensures
            r == &self.do_lua,
    {
        &self.do_lua
    }

    pub fn do_json(&self) -> (r: &DoJsonConfig)
        ensures
            r == &self.do_json,
    {
        &self.do_json
    }

    pub fn do_typst_compile(&self) -> (r: &DoTypstCompileConfig)
        ensures
            r == &self.do_typst_compile,
    {
        &self.do_typst_compile
    }
}

impl DoLuaConfig {
    pub fn no_default_lib(&self) -> (r: &bool)
        ensures
            *r == self.no_default_lib,
    {
        &self.no_default_lib
    }

    pub fn additional_path(&self) -> (r: &String)
        ensures
            r == &self.additional_path,
    {
        &self.additional_path
    }
}

impl DoJsonConfig {
    pub fn minify(&self) -> (r: &bool)
        ensures
            *r == self.minify,
    {
        &self.minify
    }
}

impl DoTypstCompileConfig {
    pub fn typst_command(&self) -> (r: &String)
        ensures
            r == &self.typst_command,
    {
        &self.typst_command
    }

    /// The command that runs typst-cli: the configured one, or `typst` when
    /// none is configured.
    pub fn command(&self) -> (r: String)
        ensures
            r@ == if self.typst_command@.len() == 0 {
                "typst"@
            } else {
                self.typst_command@
            },
    {
        if self.typst_command.as_str().is_empty() {
            "typst".to_owned()
        } else {
            self.typst_command.clone()
        }
    }
}

} // verus!
