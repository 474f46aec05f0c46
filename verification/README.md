# git-rsl

Verified core of a reference state log (RSL) for git pushes.

- `src/` holds the decisions, verified with Verus: validating the remote RSL
  against the local one (`chain`), checking fetched heads against push
  entries (`fetch_head`), building push refspecs (`refspec`), answering
  credential requests (`auth`) and the secure push protocol
  (`push_protocol`), with object names as plain bytes (`object_id`).
- `app/` runs those decisions against a repository and a remote with `git2`.
- `tests/` exercises the library on concrete values.
