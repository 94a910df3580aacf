# proot_rs

A ptrace-based sandbox that emulates `chroot` and `mount --bind` for the
programs it runs, with its decisions verified by Verus.

## Layout

- `src/`: the verified library.
  - `register/`: the cache of a tracee's registers (three versions, the
    x86_64 system call ABI), reading a path out of a tracee's memory word by
    word, and the plan that writes bytes back word by word.
  - `process/`: the tracer (tracees by pid, the decision taken on every
    `waitpid` report) and a tracee (restart method, the stages of a system
    call translation).
  - `kernel/`: the system call groups and names, what the enter and exit
    stages do for each group (path arguments and how they are dereferenced,
    `getcwd`, `chdir`), and `execve`: ELF and shebang parsing, the loader
    driver, the load addresses and the loader's statements.
  - `sigactions.rs`: the tracer's own signal dispositions.
- `tests/`: tests of the library on concrete values.
- `app/`: the program: command line, `fork`/`exec`, the event loop and the
  ptrace calls that fetch and push registers and read and write memory.

Only the host's own view of the file system (root `/`, no binding) can be
set up by the program.
