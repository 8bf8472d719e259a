# shuttle

The control plane of a hosting platform, with its decisions verified by
[Verus](https://github.com/verus-lang/verus).

- `src/` is the verified library. Its functions take what the store, the cluster and the other
  services answered, and say what is to be done next and what goes back to the user. Nothing in it
  does any input or output.
  - `gateway` creates, lists, wakes, serves, takes down and deletes projects, renews certificates,
    counts running builds, reports its health and checks that of the projects. Longer work is a
    state machine: `action` says what is wanted, `advance` takes the answer.
  - `auth` holds the routes and the settings of the authentication service.
  - `deployer` reads deployments from rows and puts together what runs them.
  - `orchestrator` brings up pods and takes them down.
  - `routing` holds tables of routes and the layers around them.
- `app/` is what surrounds the library: HTTP with axum, rows with sqlx, pods with kube. What the
  platform itself provides (the store, the worker, the certificate authority) stands behind traits.
- `tests/` runs the library.

The proof functions whose names begin with `law_` state what holds of the library as a whole.
