//! Dataset families and the pieces they share.

pub mod base;
pub mod cifar;
pub mod labels;
pub mod layout;
pub mod mnist;
pub mod records;
