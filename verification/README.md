# fracture_pt

The rules of a penetration-testing platform, as a verified Verus library:
engagements and their workflow, scan targets and their validation, the
subdomain and port scans with the changes they report, the findings scans
file, the dashboard's figures, and who may see and change what.

- `src/` is the library. Every function carries a contract that Verus
  proves; the few calls into `chrono`, `uuid`, `form_urlencoded` and std's
  case mapping sit behind small trusted wrappers; what each is trusted to do is
  stated in its `ensures` clause and explained in its doc comment.
- `tests/` runs the library on concrete values.
- `app/` reads the platform's stored JSON into the library's types and
  writes results back, and holds what needs the operating system.

Modules: `text` (strings as character sequences), `hostname`, `ip`,
`scan_target`, `scan_diff`, `jobs`, `alerts`, `engagement`, `dashboard`,
`free_scan`, `access`, `contact`, `reports`, `ids`, `clock`, `app_info`,
`catalog`, `plans` (what the Free plan leaves out), `schema` (the tables' relations and the reset order),
`routes` (the route tables).
