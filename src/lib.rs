//! Live search over the philolog.us lexicon: request construction, response
//! interpretation, the result list model and the search controller that
//! decides which lookup may commit to the list.

pub mod encoding;
pub mod lookup;
pub mod model;
pub mod controller;
pub mod laws;
