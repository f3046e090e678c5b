# jolt

A package and project manager for Java: it scaffolds projects and
workspaces, resolves Maven Central dependencies into a global cache, links
them into projects, compiles, runs and tests with the JDK it finds, and
packages fat JARs, GraalVM native images, jpackage images and NSIS
installers.

The library in `src/` holds the decisions and is verified with Verus; the
program in `app/` does the I/O (files, processes, HTTP, prompts) and asks
the library for its decisions. What stays in `app/` besides I/O is the
handling of JSON values for `.vscode/settings.json` and `extensions.json`
(the keys and values to write come from `scaffold::ide`).

Paths are held as strings joined with `/` (`paths::path_join`, which
follows `PathBuf::join` on Unix); a Windows drive path given as a
destination, icon or licence is appended rather than substituted.

- `cli` — the command line as plain values.
- `install` — which directories a command works on, the JARs a manifest asks
  for, stale links, `jolt add` / `jolt remove` coordinates.
- `manifest`, `manifest_edit` — the manifest model and its text edits
  (through `toml_edit`).
- `lockfile`, `checksum` — `jolt.lock`, one entry per package, and the
  SHA-256 checksums it records.
- `cache` — the layout of the global JAR cache.
- `resolver` — POM dependencies (through `quick_xml`), dependency trees,
  Maven Central search results and URLs.
- `toolchain` — Java version and vendor detection, recognising JDK
  directories, choosing a system JDK, the Temurin download.
- `build` — main-class detection, classpaths and the `javac` / `java` /
  JUnit command lines.
- `packaging` — fat JARs, jpackage plans and arguments, NSIS scripts.
- `scaffold` — project templates and the IDE files.
- `checker` — `jolt check`: byte sizes, tool versions, dependency status.
- `text`, `paths` — the string and path operations the rest is built on.
