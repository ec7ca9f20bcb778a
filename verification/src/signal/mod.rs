//! Signals: numbers, sets, pending queues, handlers and delivery.

pub mod sig_deliver;
pub mod sig_handler;
pub mod sig_info;
pub mod sig_stack;
pub mod sig_struct;
