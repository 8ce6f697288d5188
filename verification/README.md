# zksync_remix

The logic of a compilation service for zkSync contracts, written in Verus
and proved against its contracts.

- `src/` — the verified library.
  - `attribute`, `types` — task records as the tasks table stores them, and
    their conversions both ways, with the round trips proved.
  - `text`, `paths`, `ident`, `clock` — text, path, UUID and time helpers;
    the path, UUID and time functions of the standard library and of the
    `uuid` and `chrono` crates are reached through small trusted wrappers.
  - `api` — the HTTP service: Hardhat configuration, request checks,
    workspace layouts, command arguments and answers.
  - `worker` — the queue worker: retrying service calls, the compile and
    verify commands, the table and store requests, task processing and the
    purgatory that removes finished tasks.
  - `lambdas` — the registration and polling handlers.
  - `legacy` — the first record format and compile worker.
- `tests/` — tests of the library.
- `app/` — the worker program around the library: the AWS clients, the
  retrying queues, the compiler runs and the background purges.
