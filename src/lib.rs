use vstd::prelude::*;

pub mod bot_error;
pub mod broadcaster;
pub mod errors;
pub mod model;
pub mod object_id;
pub mod rate_limit;
pub mod services;
pub mod text;
