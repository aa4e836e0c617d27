[package]
name = "robot_comms"
version = "0.1.0"
edition = "2021"
publish = false

[dependencies]
cdr = "=0.2.4"
edgefirst-schemas = "=1.5.5"
serde = "=1.0.229"
zenoh = { version = "=1.10.1", default-features = false }
tokio = { version = "=1.53.2", features = ["macros", "rt-multi-thread", "time"] }
env_logger = { version = "=0.11.11", default-features = false }
nalgebra = { version = "=0.35.0", default-features = false, features = ["std"] }
rs-opw-kinematics = { version = "=3.0.0", default-features = false }
