//! The decisions of the `luatalk` command line program: which input format to
//! read, where to write each output, and in which language to talk to the user.
//! The program itself reads, writes and runs other programs; these functions
//! decide for it from plain values.

pub mod conf;
pub mod generate;
pub mod input;
pub mod locale;
pub mod output;
pub mod typst;
