# Prist

A Flutter version manager. Environments are addressed by names that the user
chooses; each is a clone of one shared repository and draws on its objects, and
the Flutter engine is kept once per revision.

`src/` is the library: what Prist decides, stated in contracts and proved with
Verus. It touches neither the disk nor the network. An operation names an
`Action`; the program in `app/` performs it and hands the `Outcome` back.

| Module | What it holds |
|---|---|
| `text` | searching, trimming, splitting, joining and padding text |
| `error` | what can go wrong, and how it is told |
| `paths` | the layout of the home, and the project file |
| `config` | the configuration files, and which environment is active |
| `members` | what the members of JSON objects come to |
| `releases` | the release feed, and what a reference stands for |
| `settings`, `ide` | what is written into a project for its editors |
| `checksum`, `engine` | downloads, and sharing the engine |
| `git_ops` | the shared repository and the clones |
| `fs_util` | atomic writes and links |
| `work` | actions and outcomes |
| `cli`, `commands` | the command line and the commands |

`tests/` runs the library on concrete values.

`Cargo.toml` names `kstring`, which nothing here calls: `gix` draws on it, and its
later versions ask for a newer compiler than the rest of the project.
