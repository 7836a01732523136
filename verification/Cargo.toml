[package]
name = "omics_export"
version = "0.1.0"
edition = "2021"
publish = false

[dependencies]
arrow2 = { version = "*", features = ["io_csv_write", "io_parquet", "io_parquet_zstd"] }
flate2 = "*"
geo = "*"
ndarray = "*"
clap = { version = "*", features = ["derive"] }

[dev-dependencies]
serde_json = "*"
