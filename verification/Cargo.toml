[package]
name = "xfce4_terminal"
version = "0.1.0"
edition = "2021"
publish = false

[dependencies]
pcre2 = "*"
libc = "*"
glib = "0.18"
gdk = "0.18"
gtk = "0.18"
zoha-vte = "*"
