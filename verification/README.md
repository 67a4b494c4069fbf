# sm121-kernels

Verified launch planning for GPU kernels on compute capability 12.1.

`src/` is the planner: for every kernel request it takes buffer lengths and dimensions, checks
them, and answers with the launch (module, entry point, grid, block, shared memory, tensor-map
descriptors, arguments), with a program of several device steps, or with the error that refuses
the request. Everything in it is verified; nothing in it touches a device.

`app/` carries the plans out: it owns contexts, streams and memory, finds kernels, talks to the
driver and to NCCL, and offers the C API.

- `plan`, `program`, `dialogue`: what a device is asked to do, in one launch, in several steps, or
  in steps whose data passes through the host
- `activation`, `embedding`, `kv_cache`, `gemm`, `linear_attention`, `attention`: the kernels
- `distributed`: ring attention on one device and across ranks
- `device`, `meminfo`: what the driver's answers mean for a request to use a device
- `ffi`: the decisions of the C API
- `text`, `shape`, `tensor_map`, `error`: building blocks
