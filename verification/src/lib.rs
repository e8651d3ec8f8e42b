pub mod text;
pub mod order;
pub mod memo;
pub mod folders;
pub mod clock;
pub mod state;
pub mod search;
pub mod page;
pub mod icon;
