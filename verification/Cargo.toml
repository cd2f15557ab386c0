[package]
name = "hv_tour"
version = "0.1.0"
edition = "2021"
publish = false

[dependencies]
page_table_entry = "=0.6.2"
memory_addr = "=0.4.1"
sbi-spec = { version = "=0.0.9", features = ["legacy"] }
axerrno = "=0.2.2"
aarch64-cpu = "=11.2.0"
tock-registers = "=0.10.1"
memoffset = "=0.9.1"
