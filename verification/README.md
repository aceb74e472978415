# ractor

Actors whose decisions are verified.

The library in `src/` holds no executor and waits for nothing. It takes what happened (a hook
ended, a port handed out a message, a delay is over, a file was written) and says what is to be
done next. Its contracts are stated over mathematical models and proved by Verus.

* `actor`: the life of an actor. `actor::lifecycle` is the model, `actor::runtime` and
  `actor::spawn` are the code, `actor::laws` says what holds of every life: the order of the
  statuses and of the hooks, what a supervisor hears and when, that each message is handled once,
  and how an actor ends.
* `time`: tasks that send, stop or kill after a delay, with their laws in `time::laws`.
* `watch`: who is told about a file that was written, with the laws in `watch::laws`.
* `concurrency` and `text`: spans of time, and numbers as text.

`app/` runs the library on tokio: it awaits the hooks, ports and sleeps, watches the file system,
and hands back what came of it.

What is trusted stands in `watch`: the path functions and the path separator of the standard
library, and the cloning of a shared pointer.
