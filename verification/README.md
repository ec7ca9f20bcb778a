# respos

The verified core of RespOS, a kernel with a Linux-compatible system call
interface for RISC-V 64 and LoongArch 64. The library holds the kernel's rules as
executable Rust with contracts that Verus proves.

- `src/syscall/` decides what each system call does: descriptors, paths, reading
  and writing, processes, waiting, credentials, scheduling, signals, timers,
  shared memory, memory mappings, polling and sockets. `table` maps numbers and
  arguments to calls.
- `src/signal/` holds signal sets, pending signals, handlers and delivery.
- `src/net/` holds addresses, the listening ports, streams, datagrams, local
  sockets, the loopback device and the status page. `smol` states what is relied
  on of the protocol engine, smoltcp.
- `src/perf/` counts events and renders the report about them.
- `src/platform/` has one module for each machine: the order of its start, its
  devices and its reports.

A call that may have to wait, or that does several things to a file, is a step
function: it takes what came of the last thing that was done, and says what is to be
done next or what the call returns. `app/` holds the loops that perform these steps
on threads, files and sockets that are given to them, and the network devices, the
clock and the locks. It also hands a decoded call to the method of its name; what
those methods need of the kernel (tables of processes, user memory, file systems) is
brought by whoever implements them.

What user memory holds is handed in as `UserIn` and `UserOut`, and what is to be
written comes back in a `Reply`, so that every fault is a case of the contract.
