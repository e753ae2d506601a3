[package]
name = "oxinoti"
version = "0.1.0"
edition = "2021"
publish = false

[dependencies]
toml = "*"
dbus = "*"
dbus-crossroads = "*"
gtk = "*"
glib = "*"
gtk-layer-shell = "*"
directories-next = "*"
