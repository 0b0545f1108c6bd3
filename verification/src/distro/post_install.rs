pub mod archlinux;
