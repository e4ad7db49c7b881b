pub mod api;
pub mod model;
pub mod text;
pub mod time;
pub mod util;
