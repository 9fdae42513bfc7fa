//! Backends that resolve secret keys to secret values.

pub mod test;
