# ozymem

A memory of code for assistants. It keeps what the files of a project define and depend on in
a graph, together with the lessons that were learned in them, and answers questions about all
that over the Model Context Protocol, over HTTP and on the command line.

`src/` is a library in Verus: what is decided and computed, with contracts that Verus proves.
It does no input and output. Where something is to be read, sent or asked, a function says
what, and the answer comes back as a value; longer courses (the start of an environment, a
tool call, the loading of a tree, the merge of a proposed change) are functions from a state
and an event to the next state and action.

| Part | Modules |
|------|---------|
| Reading source | `language`, `syntax`, `heuristics`, `parser`, `scan` |
| Files and projects | `paths`, `fs_utils`, `projects`, `watch`, `config` |
| The graph | `records`, `statements`, `graph`, `merge`, `tree` |
| The protocol for assistants | `json`, `mcp_common`, `tool_call`, `rpc` |
| The server | `api`, `credentials`, `rate_limit`, `server`, `sessions` |
| The command line client | `status`, `doctor`, `init`, `deregister`, `update`, `mcp_setup`, `processes`, `reports` |
| Texts | `text` |

Proof functions whose names begin with `law_` state what holds across functions: that a
credential is read back, that a rate limit is never exceeded, that a log is sent in its order,
that a tree shows no file twice.

What is taken from other crates without proof stands behind small functions in `syntax`
(Tree-sitter), `credentials` (hashing, random bytes, hexadecimal text), `sessions` (tables)
and `text` (upper and lower case). Each says in its documentation what is relied on.

`app/` holds the programs around the library: the client `ozymem`, the server `ozymem-server`
and `ping_memgraph`. The name by which the program is called says which of them runs.
`tests/` exercises the library from outside.

The client enters itself in the configuration files of other programs. Two editors are known
to it. A file `.ozymem-programs.toml` in the home directory takes their place: it lists the
programs in the order in which they are offered, each with its name and the pieces of its path
below the directory in which the platform keeps configuration:

```toml
[[program]]
name = "Editor"
path = ["Editor", "User", "mcp.json"]
```
