# winforge

The decision logic of WinForge, a Windows setup assistant that installs
packages through winget and applies reversible system tweaks through
PowerShell, written in Verus and proved against its specifications.

- `src/` is the verified library:
  - `text`: white space, trimming, line and word splitting, substring search
    and decimal formatting, each proved against a model of the standard
    library operation it stands for;
  - `tweaks`: the tweak catalogue, its identifiers and apply/revert scripts;
  - `command`: the commands to run and the record of a finished run;
  - `progress`: the progress reports shown to the user;
  - `runner`: applying and reverting tweaks;
  - `install`: the per-package decisions of a batch installation;
  - `batch`: a batch of requests, and a revert request, as state machines
    whose steps take command outcomes and yield reports and the next command;
  - `detect`: reading back applied tweaks and installed packages;
  - `system`: the hardware summary script and its result;
  - `window`: the maximise button.
- `app/` is the Tauri shell: it runs the commands, emits the reports and
  converts values between the user interface and the library.
- `tests/` exercises the library on concrete inputs.
