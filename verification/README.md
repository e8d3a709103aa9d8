# codex_pr

Policies, profiles, pipelines, artifact workflows, templates and settings around a coding
agent, as a library whose functions are proved against their contracts with Verus.

## Layout

- `src/` is the library. Every function states what it returns or changes; types that stand
  for structured values have a view (`X` and `XView`), and contracts speak of views.
  - `text`, `strmap`, `number`, `paths`, `json`, `yaml`, `tomlvalue`, `pattern`, `digest`:
    texts, ordered maps, paths, and the calls into parsers, regular expressions and SHA-256.
  - `types`: what is stored and passed around, command catalogues, workflow files, templates
    with placeholders.
  - `policy`, `hooks`, `runtime`, `audit`: what a session allows, and what it logs.
  - `pipelines`: expansion of components, and the engine that steps through parts.
  - `workflows`: the artifact store and the engine of artifact workflows.
  - `profiles`: the graph of profiles, their resolution, and the cache of resolutions.
  - `config`: settings in layers, with the source of each, and how they are written.
  - `templates`, `attach`, `mru`: templates, profiles attached to things, templates last used.
  - `repo_ops`, `updater`, `advisor`: plans for worktrees, branches and updates, and advice.
  - `cli`: what the commands decide, apart from reading, asking and printing.
- `app/` is the program: arguments, files, processes and the terminal.
- `tests/` runs the library with the crates it calls.

## Laws

Beside the contracts stand public proof functions. Each states, in its doc comment and in
its `ensures`, something that holds of several functions together: that profiles only
tighten a policy, that a hook cannot bypass it, that expansion is complete and bounded,
that revisions are bounded, that a stronger layer of settings wins, that a planned path
stays below its root, that a remembered resolution is what a fresh one gives, and so on.

## What is believed

The contracts of calls into other crates are believed, not proved. They stand where the
call is made, marked `external_body`, and say in a comment which function they call. Where
what such a function returns takes pages to state, its result has a name (an `uninterp`
function), and contracts speak of that name.
