# nutcase

Driver logic for NVIDIA Turing, Ampere and Ada GPUs, written in Verus with
each function proved against its contract.

- `src/chipset.rs`: chipset detection from PMC_BOOT_0 and the supported-device list.
- `src/nova_core.rs`: the BAR0 window, GPU bring-up, firmware state, the reset
  sequence as a state machine, and the PCI match table.
- `src/drm.rs`: GETPARAM and GEM request handlers, the GEM handle table and the ioctl dispatcher.
- `src/memory.rs`: DMA buffers, GEM objects and memory flags.
- `src/gsp.rs`, `src/gsp/`: GSP messages, their byte layout, the message ring and the client.
- `src/wire.rs`: fixed-size little-endian encodings with round-trip proofs.
- `app/`: register and mailbox I/O, the loops that carry out the reset
  decisions, copies to and from device memory, and displayable errors.
