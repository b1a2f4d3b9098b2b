//! The page controllers. Each owns the state of one page, takes the messages
//! meant for that page and answers with the effects to carry out.

pub mod player;
pub mod playlist;
pub mod queue;
pub mod settings;
