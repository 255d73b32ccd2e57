pub mod cells;
