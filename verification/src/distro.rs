pub mod file_list;
pub mod fs_op;
pub mod post_install;
