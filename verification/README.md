# colorguard

Verified register definitions for an AArch64 code-generator backend and the
memory-protection-key entry points of the ColorGuard sandboxing scheme.

- `src/machinst.rs`: registers (`Reg`, `RealReg`, `PReg`, `Writable`), the
  allocation consumer used while printing, and the machine environment.
- `src/preg.rs`: the calls into `regalloc2` for its physical-register encoding.
- `src/regs.rs`: the AArch64 register constructors, the register universe
  (`create_reg_env`) with its laws, and the assembler names of registers.
- `src/text.rs`: decimal numerals; `src/sizes.rs`: operand sizes.
- `src/mpk.rs`, `src/colorguard.rs`: the protection-key primitives and the
  ColorGuard entry points, inert in this build.
- `app/`: a benchmark that instantiates a module many times with `wasmtime`,
  and the conversions to `regalloc2`'s own types.
