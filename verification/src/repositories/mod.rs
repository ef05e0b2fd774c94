pub mod car;

pub mod part;
