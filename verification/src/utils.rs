pub mod check;
pub mod response;
