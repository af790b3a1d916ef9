//! Member and type specifications, parsed from text.
pub mod dtype;
pub mod member_spacing;
pub mod member_specification;
pub mod sizing;
pub mod type_specification;

pub use dtype::Dtype;
pub use member_specification::MemberSpecification;
pub use sizing::Sizing;
pub use type_specification::TypeSpecification;
