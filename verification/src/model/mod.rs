pub mod league;
pub mod record;
pub mod result;
pub mod reverse;
pub mod round;
pub mod user;
