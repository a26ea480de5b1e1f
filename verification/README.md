# rko_core

The verified core of a Rust support library for Linux kernel modules.

`src/` holds the logic, every function with a contract proved by Verus:
errno values and error pointers (`error`), kernel time (`time`), socket
addresses, their `sockaddr` encoding and the steps of setting up a
listening socket (`net`), reference counts, the
try-only lock and one-shot channels (`sync`, `kasync`), revocable values
(`revocable`), little-endian parsing and C strings (`types`), GFP flags,
array layouts and growable vectors (`kalloc`), the page arithmetic of folio
and block-device reads, inode set-up and the replies of the filesystem
callbacks (`fs`), userspace buffer and I/O vector bookkeeping (`user`,
`iov`), log format strings and the bounded formatter (`printk`), and lists
of entries (`unsafe_list`).

Stateful pieces are modelled as state machines: each operation that is one
atomic step in the kernel (a refcount update, a lock-word exchange) is a
method taking `&mut self` whose contract gives the next state. A guard
handed out by a lock or a revocable wrapper carries that object's identity
as a ghost value, and only a guard carrying it can reach or give back the
value. Drop glue is not verified: what dropping does in the kernel (giving a
guard back, stopping an executor) is an explicit call here.

`app/` is the kernel-facing glue: it declares the kernel's C functions and
makes the calls, letting the library decide what to ask for and what the
answers mean.

`tests/` runs the library on concrete values.
