# iou

The submission side of io_uring: filling in the entries of the submission queue, and handing out
batches of them, linked into chains or not.

- `src/` is the library, verified with Verus.
  - `uring_sys` has the entry, the ring of slots, and one function for each kind of request that
    fills an entry in; the spec functions named `*_entry` say what the entry is.
  - `sqe` has `SQE`, a pending event: its setters and its `prep_*` methods.
  - `sqes` has `SQEs`, a batch of events from a ring, and the iterators that link them.
  - `registrar` has the files and buffers, registered with the ring or not, that requests name.
  - `args` and `flags` have the other arguments of requests.
  - `laws` has what holds of the library as a whole.
- `tests/` runs the library.
- `app/` puts the queue in front of programs: requests on slices, paths and the types of nix,
  flags with the operators of bitflags, and batches as iterators.

Memory appears in the library as addresses and lengths. Taking the address of a slice is left to
`app/`, and so is the promise that the memory outlives the request.

The numbers for `fadvise` are those of Linux on every architecture but s390x.
