pub mod server_router;
pub mod server;
