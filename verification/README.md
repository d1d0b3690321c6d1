# Tor Browser Builder

A cross-platform installer and launcher for Tor Browser (macOS, Linux, Windows).
It fetches the current release from the Tor Project, asks for confirmation,
downloads it, verifies its SHA-256 checksum and its PGP signature, and installs
it for the current account or for all users. It is not affiliated with or
endorsed by The Tor Project.

- `src/` is the library: every decision of the installer, verified with Verus.
  `src/lib.rs` says what each module is about.
- `app/` is the program around it: the window (egui, run by eframe), the network,
  the file system and other programs.
- `tests/` runs the library on given values.

What is proved of every install stands in `src/pipeline_laws.rs`. Among it:

- nothing is installed, no command is run and no success is reported unless the
  person has agreed and the download has passed each check that the release
  allows;
- a download that fails a check is discarded;
- every command is shown before it is run, and nothing that is shown or run
  depends on the password but for what `sudo` gets on its standard input;
- the states of an install are reported in their order, and success only with
  the path at which Tor Browser was installed;
- every install ends, with one outcome, and asks for the removal of each download
  that was completed (one that broke off part way is left where it is).

A signature counts only under the signing key of the Tor Browser developers: a
key with another fingerprint is refused (`src/signature.rs`).

The program looks for its logo in `assets/tor_logo_tbb.svg` beside the binary.
