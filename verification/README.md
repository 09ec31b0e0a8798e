# cortex_m

Low level access to Cortex-M processors, with its register logic proved correct.

- `src/` is the verified library. Each operation on a core peripheral (NVIC, SCB, SysTick,
  DWT, ITM, TPIU, DCB, SAU, CPUID, CBP) is a function from the values read out of its
  registers to the values to write back, with a contract that states the result bit by bit.
  The layouts of the register blocks, the write plans of the ITM, the SysTick delay plans and
  the test-target responses of the security extensions are verified the same way, together
  with the laws that tie the operations together (what a setter writes, the getter reads back;
  decoding a priority undoes encoding it; the ITM writes carry exactly the buffer's bytes).
- `app/` does the rest: the volatile reads and writes at the addresses that the library
  computes, the Cortex-M instructions, and the impls of the outside traits (`embedded-hal`,
  `mutex-trait`, `serde`).
- `tests/` runs the library on concrete values.
