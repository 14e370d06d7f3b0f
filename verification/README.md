# k8s_maestro

Workflow orchestration for Kubernetes: steps (jobs, pods, sidecars, Python
scripts), the dependencies and conditions between them, their scheduling and
checkpointing, services, ingresses, security contexts and sidecar plugins.

The library under `src/` is written in Verus. Each public function carries a
`requires`/`ensures` contract over a mathematical model of its data (views
as `Seq`, `Set` and `Map`), and Verus proves the code against it. Laws that
span several functions stand as public proof functions (names starting with
`lemma_`), among them:

- a topological order exists exactly when the dependency graph has no cycle;
- the steps ready to run in an acyclic workflow are never stuck;
- the memory cache keeps its bounds of files and bytes, evicts the least
  recently used entries first, and reads back what was written;
- a plugin registered under its name is the one handed back for that name.

Conditions between steps are data (`Condition`): all or any of the
dependencies succeeded or failed, an output above a threshold or equal to a
value, an exit code, always, never, and their `and`, `or` and `not`. A
condition given as an arbitrary closure of the user is not offered: a
condition is copied along with the graph that holds it, and a shared closure
(`Arc<dyn Fn ...>`) is not a value Verus can carry here.

Output values are JSON without fractional numbers: null, booleans, 64-bit
integers, strings, arrays and objects (members in order). A fractional
number read from storage is kept as its JSON text.

Calls into other crates (`chrono`, `sha2`, `uuid`, `lru`, `kube`,
`libloading`) stand behind small trusted items whose doc comments say what
their contracts claim.

`app/` is ordinary Rust around the library: Kubernetes API calls, HTTP
storage and serving, the file system, environment variables, dynamic library
loading and the serde forms of the library's types.

`tests/` runs the library on concrete values.
