[package]
name = "yew_property_info"
version = "0.1.0"
edition = "2021"

# The token crates are built without the compiler's token streams, so that a
# text is lexed and printed in one way wherever the library runs. They are
# held at the versions that agree with syn 1 on what a literal is.
[dependencies]
proc-macro2 = { version = "=1.0.56", default-features = false }
quote = { version = "=1.0.26", default-features = false }
syn = { version = "=1.0.109", default-features = false, features = ["clone-impls", "derive", "parsing", "printing"] }
