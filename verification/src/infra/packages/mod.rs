pub mod os_release;
pub mod reconciler;
