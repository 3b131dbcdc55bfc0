pub mod reconciler;
pub mod setup;
