//! Settings shared by the connection handlers.
use vstd::prelude::*;

verus! {

/// The channel size of a handler configuration made by `default` or `new`.
pub const DEFAULT_CHANNEL_SIZE: usize = 32768;

/// Configuration of the connection handlers.
#[derive(Clone, Debug)]
pub struct HandlerConfig {
    /// Size of the broadcast channel of each handler.
    pub channel_size: usize,
}

impl Default for HandlerConfig {
    fn default() -> (r: Self)
        ensures
            r.channel_size == DEFAULT_CHANNEL_SIZE,
    {
        HandlerConfig { channel_size: DEFAULT_CHANNEL_SIZE }
    }
}

impl HandlerConfig {
    /// A configuration with the default channel size.
    pub fn new() -> (r: Self)
        ensures
            r.channel_size == DEFAULT_CHANNEL_SIZE,
    {
        HandlerConfig { channel_size: DEFAULT_CHANNEL_SIZE }
    }

    /// The same configuration with the given channel size.
    pub fn with_channel_size(self, size: usize) -> (r: Self)
        ensures
            r.channel_size == size,
    {
        let mut c = self;
        c.channel_size = size;
        c
    }
}

} // verus!
