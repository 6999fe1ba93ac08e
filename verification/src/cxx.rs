//! Models of the foreign process's string and vector layouts.

pub mod string;
pub mod vector;
pub mod wstring;
