# copilot-runtime

The logic of a GitHub Copilot provider, verified with Verus.

Copilot is reached over its API (the native transport) or over its official
CLI, which is run as a child process and spoken to over the Agent Client
Protocol (the official transport).

- `src/` decides: which transport and model a session has, what a request or a
  prompt holds, how often a request is tried, how a response stream is read,
  how a turn on the official CLI runs, and what the CLI may do. Every function
  has a contract that Verus proves; the laws that relate several of them are
  public proof functions whose names begin with `law_`.
- `app/` acts: it reads the environment and the file system, sends requests,
  runs the child process, and does what `src/` says.
- `tests/` runs the library on concrete values, with the outside crates linked.

What is taken on trust are the contracts of the functions marked
`external_body` and of the `assume_specification` items: each names the outside
function it stands for and says what is believed of it.
