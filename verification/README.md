# test_napi

A Node-API module with one method, `test_async_work`. Script calls it with a function; the module
queues asynchronous work, and once the work has been executed the function is called.

The library (`src/`) holds every decision and makes no call into the runtime. Each procedure is a
sequence of steps: a step either names one request to put to the runtime, or returns, or stops at
a broken check. `app/` makes the calls and hands the replies back.

| module            | what it holds                                               |
|-------------------|-------------------------------------------------------------|
| `handle`          | the runtime's opaque pointers, as addresses                 |
| `constants`       | the status of success and the value type of a function      |
| `protocol`        | requests, replies, faults and steps                         |
| `baton`           | the record that travels with the work, and `execute`        |
| `test_async_work` | the call from script                                        |
| `complete`        | the end of the work                                         |
| `init`            | registration                                                |
| `laws`            | what holds of the procedures together                       |

The baton is filled in before the runtime has made the work, so the work that a completion deletes
is the null one; `laws` states this.
