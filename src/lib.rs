pub mod expression;
pub mod function;
pub mod fragment;
pub mod tagged;
