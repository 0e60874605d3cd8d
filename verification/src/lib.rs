//! A download manager without its input and output: the records of transfers and the
//! commands on them, the decisions of the worker that carries out one attempt, the
//! rules for file names and paths, the reading of HTTP responses and the rate limit.
//! Every function is verified against the contract it states; what is taken on trust
//! from other crates is marked where it stands.

pub mod attempt;
pub mod clock;
pub mod control;
pub mod decimal;
pub mod handles;
pub mod limiter;
pub mod model;
pub mod names;
pub mod protocol;
pub mod registry;
pub mod text;
pub mod urls;
pub mod worker;
