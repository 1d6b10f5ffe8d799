//! What the service knows of its collaborators.

pub mod telegram;
