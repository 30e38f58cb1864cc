[package]
name = "commitgraph_file"
version = "0.1.0"
edition = "2021"
publish = false

[dependencies]
git-chunk = "*"
git-hash = "*"
memmap2 = "*"
bstr = "*"
quick-error = "*"
