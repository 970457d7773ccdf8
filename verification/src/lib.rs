//! A small actor toolkit: bounded sinks, fan-out sources and function
//! stages, and the actors of a demo built on them (a LED driver, a
//! loop-back link, a publish/subscribe front end and a ping-pong pair).
//! Every actor's reaction to an event is a verified step function; the
//! asynchronous loops that feed them events live outside this crate.
pub mod channel;
pub mod limero;
pub mod led;
pub mod link;
pub mod pubsub;
pub mod pingpong;
pub mod wiring;
