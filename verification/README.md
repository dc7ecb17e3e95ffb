# candle-metal-kernels (verified core)

The bookkeeping of a Metal compute backend, verified with Verus:

- `src/source.rs`: the kernel families (`Source`), the precompiled library
  file and the embedded Metal source file of each, and the laws that relate them.
- `src/kernel.rs`: kernel names, the `KernelDevice` interface that a GPU device
  implements, and `Kernels`, the caches of loaded libraries and compute
  pipelines, with the loading rules (precompiled file first, then compiling the
  source with the compiler settings chosen in `options.rs`) and the caching
  laws. Pipelines are found by the name's text and the constant values' `==`.
- `src/device.rs`: device type from the architecture name, the retry policy for
  compiling a library, and the URL and messages for precompiled files.
- `src/options.rs`: the compiler settings and the fast-math switch.
- `src/text.rs`: string helpers used by the above.

`app/` holds the Metal side: the device handle and its `KernelDevice`
implementation (Metal calls, the environment variable, the OS version check),
the embedded sources, and the lock that shares the caches.
It builds on Apple platforms only.
