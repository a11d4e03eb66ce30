//! Terminal identification and image-protocol capabilities, with the small
//! text utilities used around them: pinyin initials of file names, filename
//! filters and single-key input handling.

pub mod brand;
pub mod filter;
pub mod input;
pub mod pinyin_utils;
pub mod text;
