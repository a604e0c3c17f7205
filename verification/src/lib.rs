//! Native-host core of a desktop dashboard shell: a keep-alive lifecycle
//! manager over the platform's sleep-inhibition facility, and a stateless
//! credential vault adapter over the platform's secret store.

pub mod keep_alive;
pub mod vault;
