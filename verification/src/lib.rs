//! A console "baseball" number-guessing game library.
//!
//! The hidden secret is a sequence of three distinct digits. Each guess is
//! scored with strikes (right digit, right position) and balls (the secret's
//! digit at a position appears elsewhere in the guess). The session
//! controller is a verified state machine that drives the whole dialogue;
//! the surrounding binary only moves text between the console and the
//! controller.

pub mod controller;
pub mod game;
pub mod text;
