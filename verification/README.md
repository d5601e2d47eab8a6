# litebox_optee

The decisions of a host for OP-TEE trusted applications (TAs), verified with Verus.

A call from the normal world arrives as register values. It names a message in shared memory,
and the message asks for memory to be registered, or for a TA to be opened, invoked or closed.
The library decides what is to be done for each of these, checks every address and every length
on the way, and says exactly what is answered. Reading and writing memory, page tables and files
is left to its callers: each operation that needs them is a small state machine that names the
next access and takes its outcome.

| Modules | What they hold |
|---|---|
| `smc`, `msg`, `msg_handler` | calls, messages, and the messages meant for the host itself |
| `shm`, `shm_registration` | shared memory: its registration and the parts that references name |
| `ta_request`, `msg_update` | requests to TAs decoded from messages, and the answers to them |
| `rpc_context` | requests that wait for the normal world, and the steps they go through |
| `vmap`, `page_ranges`, `tables`, `id_pool` | ranges of virtual addresses and the tables behind them |
| `paging`, `page_ops`, `page_walk` | mapping, unmapping, moving, protecting and cleaning up pages |
| `syscall`, `codes`, `params`, `uuid`, `phys`, `addr`, `bytes`, `loader` | system calls, numbers and structures |
| `ta_head`, `runner`, `base64_data` | TA binaries, and files of commands for them |

Public proof functions whose names begin with `law_` state what holds across several functions.

`app/` holds what surrounds the library: locks and globals, page tables in memory, and the
command line.
