pub mod domain;
pub mod dto;
pub mod momotalk;

pub use domain::{AndLang, InLang, IntoAndLang, IntoWithLang, Lang};
pub use domain::{Article, Body, Msg, Page, Profile};
pub use domain::{ImageValue, Role, TextValue};
