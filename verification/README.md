# minidump_writer

Writes minidumps on Windows, of the own process or of another one that crashed.

Writing a dump is a conversation with the operating system. Its decisions (which
calls, in which order, with which arguments, and what a failed call leads to)
are a state machine that is verified with Verus. The calls themselves are made
around it.

- `src/` is the verified library.
  - `minidump_writer`: `MinidumpWriter`, which starts a dump and knows what is
    written.
  - `dump`: the dump in progress. `request` names the call that is needed next
    and `resume` goes on with what it returned.
  - `protocol`, `errors`, `crash_context`, `winnt`, `dump_type`: what is said.
  - `breakpad`: the Breakpad information stream.
  - `run`: what a whole conversation is, and that it ends.
  - `law_outcome`, `law_local`, `law_handles`, `law_threads`, `law_written`: what every
    conversation keeps to. Handles are closed, threads are resumed, the thread
    that runs is never suspended, and what is written is what was asked for.
- `app/` makes the calls into Windows.
- `tests/` plays conversations through.
