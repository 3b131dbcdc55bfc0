pub mod api_response;
pub mod ids;
pub mod system;
