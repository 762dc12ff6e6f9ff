pub mod notify;
pub mod prime_checker;
pub mod task;
