# fecbctl

Deploys an ingress route or a certificate to a cluster. The command line
(`route create ...`, `cert client create ...`, `cert server create ...`)
selects a request; the library renders its configuration and plans the
deployment: write the configuration and the shared settings, merge them,
write a j2 template, render it, and apply the result with kubectl.

- `src/` is the verified library: the request types (`clientcertificate`,
  `route`), the rendered texts (`config`), the deployment plan and the mode
  selection (`deploy`), and exact string comparison (`text`).
- `app/` reads the command line with clap and carries the planned steps out
  (files, processes).
