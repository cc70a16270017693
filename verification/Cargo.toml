[package]
name = "model-serving"
version = "0.1.0"
edition = "2021"
publish = false

# The verified library in src/ calls none of these crates; app/ uses all of them.
[dependencies]
# Deserialize and Serialize on the app's copy of the quantization document.
serde = { version = "=1.0.229", features = ["derive"] }
# Parses the quantization document text into that copy (a serde parse into a library type).
serde_json = "=1.0.154"
# Error and Display on the app's copies of the library's error types.
thiserror = "=2.0.21"
# Logging of adaptive RAM growth decisions.
tracing = "=0.1.44"
