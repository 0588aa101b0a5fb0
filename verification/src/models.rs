pub mod attendance;
pub mod classroom;
pub mod classroom_student;
pub mod parent;
pub mod student;
pub mod teacher;
