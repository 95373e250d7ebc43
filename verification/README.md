# bana

Build automation for native Android projects on unusual hosts (Termux,
Kali NetHunter in proot, plain Linux, macOS, Windows): it detects the host
and its Android toolchain, installs what is missing through the host's
package manager, recognises the kind of project, drives the whole build of
a hybrid Rust/UniFFI project and validates the resulting APK.

The library in `src/` holds every decision, and each is verified with
Verus against a contract:

- `env_scanner` — host kind and architecture, JDK, SDK, NDK, AAPT2 and the
  Gradle wrapper, behind the `EnvProbe` and `CommandRunner` abstractions.
- `toolchain_mgr` — package backends and their selection, the bundled-tool
  catalog, install records, the content-addressed cache key and setup.
- `plugin_api`, `project_analyzer` — project scenarios and the registry
  that picks the most confident one.
- `build_driver` — the Gradle wrapper, the `cargo-ndk` build, binding
  generation, the `aapt2` override in `gradle.properties`, `gradlew` and
  the pipeline that chains them.
- `output_validator` — the APK checks; `zip_archive` reads the archive
  with the `zip` crate.
- `text`, `paths`, `types` — text helpers and path equality with their
  specifications, shared types.

`app/` holds what touches the real system: the probes and runners over the
OS, file writers, the concurrent toolchain scan, serialisable and
error-trait copies of the library's types, and the Python module.
