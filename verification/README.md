# macwifi

Wi-Fi from the terminal on macOS: an interface, commands for scripts, and the
daemon that both talk to.

Everything that decides or computes is in `src/`, a library whose functions
carry contracts that Verus proves. The program around it, with the sockets, the
terminal, the child processes and the system frameworks, is in `app/`.

## The library

| Module | What it holds |
|---|---|
| `scan` | Scan admission: requests share one scan, and a recent result is served again |
| `daemon` | Who is connected, who is told what, and what goes to the worker |
| `dispatch`, `worker` | How a request is carried out step by step; queues; share URIs |
| `client`, `ipc` | Request ids, reconnecting, one-shots; framing and greetings |
| `app`, `handler`, `input` | The state of the interface and what each key does to it |
| `ui`, `theme`, `notification`, `qr` | What is shown where, and in which colours |
| `cli`, `config` | What each command asks for and prints; settings |
| `speedtest`, `json` | How a test is started, followed and read |
| `corewlan`, `location`, `keychain`, `keychain_grant`, `privileged`, `networksetup`, `install`, `logging` | What the answers of the system mean |
| `signal`, `text`, `paths`, `time` | Sorting by strength, texts, paths, and time as plain numbers |

Contracts speak of views: texts are sequences of characters, an interface is an
`AppView`, a step of the worker a `StepView`. What holds of several functions
together stands in public proof functions beside them.

Nothing in the library reads a clock, a file or a socket. Doubles pass through
it as their bits.

## What is not proved

A few calls into other crates and the standard library are believed to do what
their contracts say; each is marked `external_body` and says so in its comment:
parsing JSON (`json`), editing a line (`input`), drawing a code (`qr`), and the
comparison, decoding and quoting of strings (`text`).
