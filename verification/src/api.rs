pub mod parents_api;
pub mod reply;
pub mod students_api;
pub mod teachers_api;
