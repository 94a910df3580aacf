use vstd::prelude::*;

verus! {

// Linux signal numbers (x86_64).
pub const SIGQUIT: i32 = 3;
pub const SIGILL: i32 = 4;
pub const SIGABRT: i32 = 6;
pub const SIGFPE: i32 = 8;
pub const SIGKILL: i32 = 9;
pub const SIGUSR1: i32 = 10;
pub const SIGSEGV: i32 = 11;
pub const SIGUSR2: i32 = 12;
pub const SIGCHLD: i32 = 17;
pub const SIGCONT: i32 = 18;
pub const SIGSTOP: i32 = 19;
pub const SIGTSTP: i32 = 20;
pub const SIGTTIN: i32 = 21;
pub const SIGTTOU: i32 = 22;

/// The action the tracer takes on a signal it receives itself.
#[derive(Debug, Clone, Copy, PartialEq, Eq, Structural)]
pub enum SignalDisposition {
    /// Abnormal termination signals: stop the program (handler with
    /// `SA_SIGINFO`).
    StopProgram,
    /// Signals for inter-process communication: show information.
    ShowInfo,
    /// Job control and tty signals, and those `sigaction` cannot change
    /// (`SIGSTOP`, `SIGKILL`): the default action is kept.
    KeepDefault,
    /// All other signals (even ^C) are ignored.
    Ignore,
}

/// The disposition the tracer installs for a signal.
pub open spec fn disposition_of(signal: i32) -> SignalDisposition {
    if signal == SIGQUIT || signal == SIGILL || signal == SIGABRT || signal == SIGFPE || signal
        == SIGSEGV {
        SignalDisposition::StopProgram
    } else if signal == SIGUSR1 || signal == SIGUSR2 {
        SignalDisposition::ShowInfo
    } else if signal == SIGCHLD || signal == SIGCONT || signal == SIGTSTP || signal == SIGTTIN
        || signal == SIGTTOU || signal == SIGSTOP || signal == SIGKILL {
        SignalDisposition::KeepDefault
    } else {
        SignalDisposition::Ignore
    }
}

/// Configures the action associated with a critical signal; all signals are
/// blocked while a handler runs.
pub fn signal_disposition(signal: i32) -> (r: SignalDisposition)
    ensures
        r == disposition_of(signal),
{
    match signal {
        SIGQUIT | SIGILL | SIGABRT | SIGFPE | SIGSEGV => SignalDisposition::StopProgram,
        SIGUSR1 | SIGUSR2 => SignalDisposition::ShowInfo,
        SIGCHLD | SIGCONT | SIGTSTP | SIGTTIN | SIGTTOU | SIGSTOP | SIGKILL => {
            SignalDisposition::KeepDefault
        },
        _ => SignalDisposition::Ignore,
    }
}

} // verus!
