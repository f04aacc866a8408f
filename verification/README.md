# arsync

A bulk file copier for Linux built on io_uring, in two parts:

- `src/` is the verified library. Its functions carry `requires`/`ensures`
  contracts proved by Verus, and its laws are public proof functions:
  - `cli`, `metadata`: command-line validation and the rsync-style metadata
    flags, with the plan of what a copy preserves;
  - `copy_plan`: splitting large files into page-aligned regions for parallel
    tasks, and the chunk-by-chunk read/write loop;
  - `directory`, `file_metadata`, `io_uring`: what the traversal does with each
    entry and file, and per-copy progress;
  - `buffer_pool`: a pool of equally sized buffers with exact accounting;
  - `hardlink_tracker`, `condvar`: hardlink detection (first copy, later links)
    and the notification that releases waiting linkers;
  - `adaptive_concurrency`: the permit pool that shrinks when descriptors run out;
  - `translations`: the keys a Fluent locale file defines;
  - `syscall_analysis`, `syscall_report`, `tally`, `pattern`, `text`: counting
    and judging the system calls of an `strace` log of a copy.
- `app/` is the program around it: argument parsing, the file I/O on compio,
  applying metadata through libc, the translation validator and the
  system-call analyzer, which all hand plain values to the library.

`tests/` exercises the library from outside.
