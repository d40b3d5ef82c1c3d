//! Finding the document that the operating system handed to the application
//! when it was started by a double click on a file.

pub mod file_url;
pub mod lowercase;
pub mod startup;
pub mod text;
