//! Verified core of the ancient star catalogue service: response envelopes,
//! the star-search SQL builder, the answers and decisions of the HTTP
//! handlers, and the lunar-mansion table rule.

pub mod astronomy;
pub mod decimal;
pub mod match_flow;
pub mod matching;
pub mod models;
pub mod replies;
pub mod star_query;
