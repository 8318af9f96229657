//! What goes to the tax service and comes back, and the rules of talking to
//! it. Sending and receiving are left to the program.

pub mod client;
pub mod models;
