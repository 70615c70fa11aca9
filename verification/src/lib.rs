//! A character-transliteration library: two operand strings describe sets of
//! characters, and three line operations (translate, delete, squeeze) rewrite
//! lines of text according to them.

pub mod args;
pub mod chars;
pub mod delete;
pub mod init;
pub mod parse;
pub mod pattern;
pub mod run;
pub mod squeeze;
pub mod translate;

pub use args::{not_empty, Cli};
pub use delete::delete;
pub use init::{init, Mode};
pub use parse::get_patterns;
pub use pattern::{check_char, Pattern, TrError};
pub use run::{delete_and_compress, process_line};
pub use squeeze::compress;
pub use translate::{
    align, translate, translate_alphabetic, translate_alphanumerics, translate_blank,
    translate_char, translate_control, translate_digit, translate_lowercase, translate_uppercase,
};
