pub mod academy_data;
