# made-funicular-postzegel-io-router

A load balancer for postzegel (stamp) code events: scanners read codes,
the balancer keeps a backlog of them, and the dispatcher hands each one,
round-robin, to a connected worker, retrying it under the same idempotency
id when the worker fails it.

- `src/` is the library, verified with Verus: code validation
  (`postzegel`, `postzegel_event`), channels (`channel`), the worker pool
  (`workers`), the dispatcher and its bookkeeping of tasks in flight
  (`dispatcher`), the backlog decisions (`balancer`), failure handling
  (`task_util`), mock scanner codes (`scanner`), and the test client's
  answers (`client`).
- `app/` is the program around it: argument parsing, logging, the tasks
  that wait on channels and workers, and the mock scanner threads.
- `tests/` exercises the library.
