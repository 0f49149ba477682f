//! Price history of exchange-traded instruments: the decoding of origin
//! responses, the cache policy and the paginated history walk, proved with Verus.

pub mod calendar;
pub mod cbr;
pub mod decode;
pub mod endpoints;
pub mod lemmas;
pub mod model;
pub mod session;
pub mod spbex;
pub mod ticker;
