# vsock_device

The decisions of a virtio socket device and of the machine state around it, verified
with Verus. Sockets, threads, epoll and hypervisor calls are left to the host side in
`app/`, which performs what the library decides and reports how it went.

- `packet`, `guest_memory`, `guest_copy`, `byte_order`: packets in guest memory. The
  header of a packet from the guest is copied once; what the guest writes later changes
  nothing. Copies know where they were read, and buffers what was stored in them.
- `sockaddr`, `tsi`: addresses and the requests of redirected sockets.
- `muxer` with `ids`, `peers`, `proxy`, `rxq`: which proxy a packet reaches, which
  proxies come and go, what waits for the guest, and how the device is set to work
  and brought to rest.
- `guest_cid`, `vsock_config`: context identifiers and the configuration.
- `x86_state`, `state_codec`: capturing and restoring processor state.
- `page_memory`: memory contents collected from pieces of any size.

Every operation has a spec function or a relation that gives its outcome from the
state before it; properties that span operations are public proof functions next to
the operations that they are about. Where Linux and macOS differ, the host is a
parameter. Functions marked `external_body` call `vm-memory`, `bincode`, `serde`,
`crossbeam-channel` or the standard library, and say in their comments what is relied
on.
