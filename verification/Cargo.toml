[package]
name = "sp1_recursion_program"
version = "0.1.0"
edition = "2021"
publish = false

[dependencies]
p3-baby-bear = "=0.1.0"
p3-challenger = "=0.1.0"
p3-commit = "=0.1.0"
p3-field = "=0.1.0"
p3-fri = "=0.1.0"
p3-merkle-tree = "=0.1.0"
p3-poseidon2 = "=0.1.0"
p3-symmetric = "=0.1.0"
cfg-if = "=1.0.5"
