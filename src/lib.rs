//! A home-automation hub: virtual devices that take commands, and observers
//! that hear of every change.
pub mod cli;
pub mod devices;
pub mod mediator;
pub mod models;
pub mod observer;
pub mod text;
