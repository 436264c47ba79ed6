[package]
name = "deathnote_contributions_feeder"
version = "0.1.0"
edition = "2021"
publish = false

[dependencies]
anyhow = "=1.0.104"
diesel = { version = "=1.4.8", default-features = false, features = ["postgres", "r2d2"] }
diesel_migrations = "=1.4.0"
dotenv = "=0.15.0"
env_logger = { version = "=0.9.3", default-features = false }
futures = "=0.3.34"
http-api-problem = { version = "=0.56.0", features = ["rocket-okapi"] }
itertools = "=0.10.5"
log = "=0.4.34"
octocrab = "=0.47.1"
rocket = { version = "=0.5.0", default-features = false, features = ["json"] }
rocket_okapi = { version = "=0.8.0", default-features = false }
tokio = { version = "=1.54.1", features = ["macros", "rt-multi-thread", "time"] }
