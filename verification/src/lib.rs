//! `luatalk` turns articles into domain data and converts that data to other
//! formats: an intermediate form that is dumped to and loaded from JSON
//! (`dto`, also what a Lua article evaluates to), and the export format of
//! MomoTalk Editor (`momotalk`). The module `cmd` holds the decisions of the
//! `luatalk` command line program.

pub mod cmd;
pub mod model;
pub mod talk;
pub mod text;

pub use model::{dto, momotalk};
pub use model::{AndLang, InLang, IntoAndLang, IntoWithLang, Lang};
pub use model::{Article, Body, Msg, Page, Profile};
pub use model::{ImageValue, Role, TextValue};
