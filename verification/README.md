# serialport_stream

The decisions of an async serial port, written in Verus and proved against their contracts.

- `src/` is the library. It decides what line settings look like to the system, in which order a
  port is opened, what a poll for reading, writing or flushing comes to, what the receive pump does
  next, and how errors are passed on. It makes no system call.
- `app/` makes the system calls that the library asks for, and offers opened ports as `AsyncRead`,
  `AsyncWrite` and `Stream` of the `futures` crate.
- `tests/` runs the library on concrete values.

## Reading the contracts

Each protocol with the system is a state machine: an event goes in, the next action comes out.
The machines have an `awaits` function that tells whether an event fits; code that is not verified
calls it before each step. Properties that hold of whole histories are the `law_` functions:

- `stream`: bytes come out in the order in which they came in, whichever way they are read; a
  failure of the pump is reported by every read after it; the pump is started once; at most one
  flush task is under way.
- `platform::open`: a port gets open exactly if every step succeeds that has to, and settings are
  in effect before async I/O begins.
- `platform::shutdown`: closing a port ends a pump that runs, discards output that was not
  transmitted, and cancels transfers in flight.
- `platform::unix::serial` and `platform::windows::comm`: line settings take effect, can be read
  back, and survive a change of the baud rate.
- `platform::unix::pump` and `platform::windows::pump`: the FIFO grows by exactly the bytes that
  are read, in their order; and when the pump ends.
- `platform::windows::overlapped`: what a poll of an overlapped transfer comes to, and that the
  machine has one transfer at a time. The system can have more: if the wake-up of a pending
  transfer cannot be registered, the poll fails, nothing is cancelled, and the next poll starts
  another transfer.

## Platforms

The library builds on Linux and Android: `platform::unix::host` takes its numbers from `libc` as
those systems have them. All other modules of `platform::unix` are given their numbers, and those
of `platform::windows` take theirs from `windows-sys`, whose constants exist on every system. The
parts of `app/` for Windows, macOS and BSD show how the decisions are put to use there; to link
them with the library, `host` and its declaration in `src/platform/unix.rs` have to be taken out
first.
