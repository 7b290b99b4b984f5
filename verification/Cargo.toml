[package]
name = "glide_ui"
version = "0.1.0"
edition = "2021"
publish = false

[dependencies]
fragile = "*"
gdk = "*"
gio = "*"
glib = "*"
gobject-sys = "*"
gtk = "*"
