//! Reading and writing metadata described by the Elucidation Metadata Standard.
pub mod bytes;
pub mod capi;
pub mod db;
pub mod designation;
pub mod error;
pub mod helper;
pub mod member;
pub mod parsing;
pub mod representable;
pub mod spacing;
pub mod specification;
pub mod text;
pub mod token;
pub mod util;
pub mod validating;
pub mod value;
