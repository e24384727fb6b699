pub mod file_store;
