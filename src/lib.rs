pub mod capture;
pub mod error;
pub mod inspect;
pub mod pagination;
