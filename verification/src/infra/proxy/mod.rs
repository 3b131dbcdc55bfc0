pub mod reconciler;
