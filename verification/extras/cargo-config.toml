# The firmware's linker scripts: the chip's memory layout and the log sections.
[target.riscv32imc-unknown-none-elf]
rustflags = [
    "-C", "link-arg=-Tlinkall.x",
    "-C", "link-arg=-Tdefmt.x",
]
