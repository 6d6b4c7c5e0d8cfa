//! Singly-linked lists under three ownership disciplines.
//!
//! `simple` is a minimal integer stack built on an explicit link enum;
//! `stack` is the general owned stack with peeking and three kinds of
//! iteration; `persistent` is an immutable list whose tails are shared
//! between owners by reference counting.

pub mod persistent;
pub mod simple;
pub mod stack;
