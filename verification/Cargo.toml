[package]
name = "sea_orm_dbml"
version = "0.1.0"
edition = "2021"
publish = false

[dependencies]
Inflector = { version = "0.11.4", default-features = false }
pest = "2"
pest_derive = "2"
