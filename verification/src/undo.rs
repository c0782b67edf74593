pub mod character_undo;
