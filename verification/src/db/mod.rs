pub mod postgres;
pub mod statement;
