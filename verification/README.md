# windows-kernel

Kernel-mode TCP networking for Windows drivers over the Winsock Kernel (WSK)
interface, with its decisions verified by Verus.

- `src/` is the verified library. Each socket operation (registration,
  creation, connect, send/receive, close), the chunked receive of a stream and
  the driver's run are state machines: they take the answer of the kernel call
  they asked for and give the next call. The library also models the I/O
  request packet and its completion routine, reads HTTP response heads
  (through `httparse`) to tell when a response is complete, and picks the
  kernel directory of the installed Windows Kits.
- `app/` performs the kernel calls the machines ask for, holds the driver's
  entry points, and the build-time helpers that read the registry and run
  `bindgen`.
- `tests/` runs the library on concrete answers.
