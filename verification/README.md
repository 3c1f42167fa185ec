# MemSpark

MemSpark brings the memory load of a Windows machine down towards 25%. It trims the working
sets of processes, purges the memory lists of the system and, where that is not enough, closes
background processes that do not belong to the system. Every run ends in a report.

## Layout

- `src/` is the library. It decides: which processes are trimmed or closed and in which order,
  which step comes next and when to stop, what a report says, how files are named, and what
  the window does. Every function is verified with Verus against its contract.
- `app/` is the program around it: the command line, files, the calls into Windows, and the
  records that reports and configurations are kept as.
- `tests/` runs the library on concrete values.

## How a run works

A run (`trim`, `termination`, `release`, `optimizer`, `query`, `cleanup`, `window`) never calls
the system itself. It says what it needs next, takes in the reply, and can be summed up when it
is over. Saving a report (`report_files`) is a run too. `app/drive.rs`, `app/storage.rs` and
`app/window.rs` carry out what runs ask for. What a run may ask for, and that it comes to an
end, is proved over all replies.

## Numbers

Loads, sizes and durations are shown as double precision arithmetic shows them. `double` states
that arithmetic over integers, so that the library computes without floating point; `memory`
proves that the 25% target means a quarter of the physical memory, for machines with up to
81 TiB of it.

## Trust

Two functions of the standard library are taken at their documentation: `String::push` and
`char::from_u32`.
