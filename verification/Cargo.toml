[package]
name = "elevatekit"
version = "0.1.0"
edition = "2021"
publish = false

[dependencies]
clap = { version = "4", features = ["derive"] }
colored = "2"
log = "0.4"
serde = { version = "1", features = ["derive"] }
serde_json = "1"
thiserror = "1"
tokio = { version = "1", features = ["rt-multi-thread", "macros"] }
tracing = "0.1"
tracing-subscriber = { version = "0.3", features = ["env-filter"] }
winapi = { version = "0.3", features = ["errhandlingapi", "handleapi", "heapapi", "minwinbase", "minwindef", "ntdef", "processthreadsapi", "securitybaseapi", "synchapi", "winbase", "winerror", "winnt", "winsvc"] }
