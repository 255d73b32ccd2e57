pub mod jump;
pub mod physics_context;
pub mod player_context;
