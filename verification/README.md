# ferrishost

FerrisHost bootstraps a personal cloud on a Linux host: it checks the host,
detects NVIDIA and AMD GPUs and prepares the host for them, installs k3s,
applies the core operators (cert-manager, GPU device plugins, RBAC) and
deploys the `ferrishost-web` dashboard with Helm. The dashboard's web service
lists and installs modules from a catalog served by JFrog Artifactory.

## Layout

- `src/` is the library, verified with Verus. Each public function states in
  its contract what it returns, over spec functions on plain values
  (`Seq<char>` for text). The laws of the library stand there as public proof
  functions named `law_…`.
  - `text` — trimming, splitting, line breaking, replacing and number
    parsing and printing on strings, each stated over character sequences.
  - `system` — the preflight: host facts from `uname`/`hostname` output and
    whether FerrisHost supports the host.
  - `gpu` — GPU detection (`nvidia-smi` listings, DRM devices) and host
    preparation per vendor.
  - `k3s`, `operators`, `deploy_web` — what installing k3s, applying the
    operators and deploying the web service decide from what the commands
    report.
  - `report`, `setup` — the lines the command line prints and small setup
    decisions.
  - `types` — the data exchanged between the command line and the web
    service.
  - `web` — the module catalog, install Jobs and their templating, and the
    answers of the web API.
- `app/` runs the commands, reads the file system, talks to Kubernetes,
  Artifactory and the network, and serves HTTP. It hands the library plain
  values and acts on what the library decides. One binary serves both roles:
  started as `ferrishost-web` it is the web service, otherwise the command
  line.
- `tests/` exercises the library on concrete values.
