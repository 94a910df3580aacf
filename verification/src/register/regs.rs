use vstd::prelude::*;

verus! {

/// A machine word of the tracee.
pub type Word = u64;

/// Syscall number that the kernel does not implement: writing it cancels a
/// system call.
pub const VOID: Word = 0xffff_ffff_ffff_ffff;

/// Number of words of the general purpose register set (`user_regs_struct`
/// of x86_64).
pub const REGISTER_SET_WORDS: usize = 27;

/// The general purpose registers of a tracee, as `PTRACE_GETREGS` returns
/// them on x86_64 (`user_regs_struct`, field after field: r15, r14, r13,
/// r12, rbp, rbx, r11, r10, r9, r8, rax, rcx, rdx, rsi, rdi, orig_rax, rip,
/// cs, eflags, rsp, ss, fs_base, gs_base, ds, es, fs, gs).
#[derive(Debug, Clone, Copy, PartialEq, Eq)]
pub struct RegisterSet {
    pub words: [u64; 27],
}

impl View for RegisterSet {
    type V = Seq<u64>;

    open spec fn view(&self) -> Seq<u64> {
        self.words@
    }
}

#[derive(Debug, Clone, Copy, PartialEq, Eq, Structural)]
pub enum RegVersion {
    /// indicates current registers value
    Current,
    /// the original registers value of the syscall
    Original,
    /// registers value modified during syscall enter translation
    Modified,
}

#[derive(Debug, Clone, Copy, PartialEq, Eq, Structural)]
pub enum SysArgIndex {
    SysArg1,
    SysArg2,
    SysArg3,
    SysArg4,
    SysArg5,
    SysArg6,
}

#[derive(Debug, Clone, Copy, PartialEq, Eq, Structural)]
pub enum Register {
    SysNum,
    SysArg(SysArgIndex),
    SysResult,
    StackPointer,
}

/// Slot of a register version in the cache.
pub open spec fn version_slot(version: RegVersion) -> int {
    match version {
        RegVersion::Current => 0,
        RegVersion::Original => 1,
        RegVersion::Modified => 2,
    }
}

/// Position in the register set of the register that plays the role
/// `register` in the x86_64 system call ABI.
pub open spec fn reg_index(register: Register) -> int {
    match register {
        Register::SysNum => 15,  // orig_rax
        Register::SysArg(SysArgIndex::SysArg1) => 14,  // rdi
        Register::SysArg(SysArgIndex::SysArg2) => 13,  // rsi
        Register::SysArg(SysArgIndex::SysArg3) => 12,  // rdx
        Register::SysArg(SysArgIndex::SysArg4) => 7,  // r10
        Register::SysArg(SysArgIndex::SysArg5) => 9,  // r8
        Register::SysArg(SysArgIndex::SysArg6) => 8,  // r9
        Register::SysResult => 10,  // rax
        Register::StackPointer => 19,  // rsp
    }
}

/// The registers that `restore_regs` puts back to their original value:
/// all but the syscall result.
pub open spec fn restored_index(i: int) -> bool {
    i == 15 || i == 14 || i == 13 || i == 12 || i == 7 || i == 9 || i == 8 || i == 19
}

fn version_slot_of(version: RegVersion) -> (r: usize)
    ensures
        r == version_slot(version),
        r < 3,
{
    match version {
        RegVersion::Current => 0,
        RegVersion::Original => 1,
        RegVersion::Modified => 2,
    }
}

fn reg_index_of(register: Register) -> (r: usize)
    ensures
        r == reg_index(register),
        r < REGISTER_SET_WORDS,
{
    match register {
        Register::SysNum => 15,
        Register::SysArg(SysArgIndex::SysArg1) => 14,
        Register::SysArg(SysArgIndex::SysArg2) => 13,
        Register::SysArg(SysArgIndex::SysArg3) => 12,
        Register::SysArg(SysArgIndex::SysArg4) => 7,
        Register::SysArg(SysArgIndex::SysArg5) => 9,
        Register::SysArg(SysArgIndex::SysArg6) => 8,
        Register::SysResult => 10,
        Register::StackPointer => 19,
    }
}

/// The abstract state of a register cache: the three versions (each a
/// sequence of words, when present) and the two flags.
pub struct RegistersModel {
    pub pid: i32,
    pub current: Option<Seq<u64>>,
    pub original: Option<Seq<u64>>,
    pub modified: Option<Seq<u64>>,
    pub regs_were_changed: bool,
    pub restore_original_regs: bool,
}

pub open spec fn opt_set_view(o: Option<RegisterSet>) -> Option<Seq<u64>> {
    match o {
        Some(r) => Some(r@),
        None => None,
    }
}

/// This struct is used to store registers information of tracee. It is designed
/// to be able to store three versions of values, one active and two snapshot
/// versions, each version is able to store a set of register values.
/// - `Current`: This version is the only active version that is allowed to
///   set specific register values directly.
/// - `Original`: This version stores the original register value, whose value
///   is usually taken from ptrace(PTRACE_GETREGS)
/// - `Modified`: A snapshot of the modified register value. The register
///   values are usually modified during the syscall-enter-stop phase, and a
///   snapshot is generated for them
#[derive(Debug)]
pub struct Registers {
    /// Pid of the tracee that it was generated from
    pub pid: i32,
    pub registers: [Option<RegisterSet>; 3],
    pub regs_were_changed: bool,
    pub restore_original_regs: bool,
}

impl View for Registers {
    type V = RegistersModel;

    open spec fn view(&self) -> RegistersModel {
        RegistersModel {
            pid: self.pid,
            current: opt_set_view(self.registers@[0]),
            original: opt_set_view(self.registers@[1]),
            modified: opt_set_view(self.registers@[2]),
            regs_were_changed: self.regs_were_changed,
            restore_original_regs: self.restore_original_regs,
        }
    }
}

/// The words of a version of the model.
pub open spec fn model_version(m: RegistersModel, version: RegVersion) -> Option<Seq<u64>> {
    match version {
        RegVersion::Current => m.current,
        RegVersion::Original => m.original,
        RegVersion::Modified => m.modified,
    }
}

/// Every version held in a model has the size of a register set.
pub open spec fn model_wf(m: RegistersModel) -> bool {
    &&& m.current matches Some(s) ==> s.len() == REGISTER_SET_WORDS
    &&& m.original matches Some(s) ==> s.len() == REGISTER_SET_WORDS
    &&& m.modified matches Some(s) ==> s.len() == REGISTER_SET_WORDS
}

/// Value of `register` in `version` (meaningful when that version exists).
pub open spec fn model_get(m: RegistersModel, version: RegVersion, register: Register) -> u64 {
    model_version(m, version).unwrap()[reg_index(register)]
}

/// `set(register, value)`: the current value is replaced, and the cache is
/// marked as changed, unless the value was already there.
pub open spec fn model_set(m: RegistersModel, register: Register, value: u64) -> RegistersModel {
    if model_get(m, RegVersion::Current, register) == value {
        m
    } else {
        RegistersModel {
            current: Some(m.current.unwrap().update(reg_index(register), value)),
            regs_were_changed: true,
            ..m
        }
    }
}

/// `save_current_regs(version)`: a snapshot of the current registers; saving
/// the original registers also clears the change mark.
pub open spec fn model_save(m: RegistersModel, version: RegVersion) -> RegistersModel {
    let m1 = match version {
        RegVersion::Current => m,
        RegVersion::Original => RegistersModel { original: m.current, ..m },
        RegVersion::Modified => RegistersModel { modified: m.current, ..m },
    };
    if version == RegVersion::Original {
        RegistersModel { regs_were_changed: false, ..m1 }
    } else {
        m1
    }
}

/// The current registers with the original value put back in every
/// register but the syscall result.
pub open spec fn restored_words(current: Seq<u64>, original: Seq<u64>) -> Seq<u64> {
    Seq::new(current.len(), |i: int| if restored_index(i) { original[i] } else { current[i] })
}

impl Registers {
    /// Creates an empty registers bundle.
    pub fn new(pid: i32) -> (r: Registers)
        ensures
            r@ == (RegistersModel {
                pid,
                current: None,
                original: None,
                modified: None,
                regs_were_changed: false,
                restore_original_regs: false,
            }),
    {
        Registers {
            pid: pid,
            registers: [None, None, None],
            regs_were_changed: false,
            restore_original_regs: false,
        }
    }

    /// Same, but with the initial (current) registers.
    pub fn from(pid: i32, raw_regs: RegisterSet) -> (r: Registers)
        ensures
            r@ == (RegistersModel {
                pid,
                current: Some(raw_regs@),
                original: None,
                modified: None,
                regs_were_changed: false,
                restore_original_regs: false,
            }),
    {
        Registers {
            pid: pid,
            registers: [Some(raw_regs), None, None],
            regs_were_changed: false,
            restore_original_regs: false,
        }
    }

    /// Retrieves a value from one of the registers; the version asked for
    /// must exist.
    pub fn get(&self, version: RegVersion, register: Register) -> (r: Word)
        requires
            model_version(self@, version) is Some,
        ensures
            r == model_get(self@, version, register),
    {
        let slot = version_slot_of(version);
        let raw_regs = self.registers[slot].unwrap();
        raw_regs.words[reg_index_of(register)]
    }

    /// Modifies the value of one of the `Current` registers.
    ///
    /// If `new_value` is the same as the current one, `regs_were_changed`
    /// is not toggled, in order to avoid unnecessary `push_regs`.
    pub fn set(&mut self, register: Register, new_value: Word, justification: &str)
        requires
            old(self)@.current is Some,
        ensures
            final(self)@ == model_set(old(self)@, register, new_value),
    {
        let current_value = self.get(RegVersion::Current, register);
        if current_value == new_value {
            return ;
        }
        let mut current = self.registers[0].unwrap();
        current.words[reg_index_of(register)] = new_value;
        self.registers[0] = Some(current);
        self.regs_were_changed = true;
        proof {
            assert(self@.current.unwrap() =~= old(self)@.current.unwrap().update(
                reg_index(register),
                new_value,
            ));
            assert(self@ == model_set(old(self)@, register, new_value));
        }
    }

    /// Saves the `Current` registers into the given `version` ones.
    ///
    /// This is the only way to modify the `Original` and `Modified` registers
    /// in this structure.
    pub fn save_current_regs(&mut self, version: RegVersion)
        requires
            old(self)@.current is Some,
        ensures
            final(self)@ == model_save(old(self)@, version),
    {
        if version != RegVersion::Current {
            let current_regs = self.registers[0].unwrap();
            let slot = version_slot_of(version);
            self.registers[slot] = Some(current_regs);
        }
        if version == RegVersion::Original {
            self.regs_were_changed = false;
        }
    }

    /// Stores the registers just retrieved from the tracee as the `Current`
    /// registers.
    pub fn fetch_regs(&mut self, regs: RegisterSet)
        ensures
            final(self)@ == (RegistersModel { current: Some(regs@), ..old(self)@ }),
    {
        self.registers[0] = Some(regs);
    }

    /// Restore the current regs with the original ones, except the syscall
    /// result.
    fn restore_regs(&mut self)
        requires
            old(self)@.current is Some,
            old(self)@.original is Some,
        ensures
            final(self)@ == (RegistersModel {
                current: Some(
                    restored_words(old(self)@.current.unwrap(), old(self)@.original.unwrap()),
                ),
                ..old(self)@
            }),
    {
        let original_regs = self.registers[1].unwrap();
        let mut current_regs = self.registers[0].unwrap();
        current_regs.words[15] = original_regs.words[15];
        current_regs.words[14] = original_regs.words[14];
        current_regs.words[13] = original_regs.words[13];
        current_regs.words[12] = original_regs.words[12];
        current_regs.words[7] = original_regs.words[7];
        current_regs.words[9] = original_regs.words[9];
        current_regs.words[8] = original_regs.words[8];
        current_regs.words[19] = original_regs.words[19];
        // Note that syscall return value register should not be restored.
        self.registers[0] = Some(current_regs);
        proof {
            assert(self@.current.unwrap() =~= restored_words(
                old(self)@.current.unwrap(),
                old(self)@.original.unwrap(),
            ));
        }
    }

    /// Decides what to push back to the tracee: nothing when no register
    /// was changed; otherwise the `Current` registers, after the original
    /// values were put back (except the syscall result) when
    /// `restore_original_regs` is set. The caller writes the returned set
    /// into the tracee (`PTRACE_SETREGS`).
    pub fn push_regs(&mut self) -> (r: Option<RegisterSet>)
        requires
            old(self)@.current is Some,
            old(self)@.restore_original_regs ==> old(self)@.original is Some,
        ensures
            !old(self)@.regs_were_changed ==> r is None && final(self)@ == old(self)@,
            old(self)@.regs_were_changed && !old(self)@.restore_original_regs ==> (final(self)@
                == old(self)@ && r == old(self).registers@[0]),
            old(self)@.regs_were_changed && old(self)@.restore_original_regs ==> (final(self)@
                == RegistersModel {
                current: Some(
                    restored_words(old(self)@.current.unwrap(), old(self)@.original.unwrap()),
                ),
                ..old(self)@
            } && r == final(self).registers@[0]),
    {
        if !self.regs_were_changed {
            return None;
        }
        if self.restore_original_regs {
            self.restore_regs();
        }
        self.registers[0]
    }

    pub fn get_pid(&self) -> (r: i32)
        ensures
            r == self@.pid,
    {
        self.pid
    }

    /// The registers of a version, which must exist.
    pub fn get_regs(&self, version: RegVersion) -> (r: RegisterSet)
        requires
            model_version(self@, version) is Some,
        ensures
            Some(r@) == model_version(self@, version),
    {
        self.registers[version_slot_of(version)].unwrap()
    }

    /// Little utility method to quickly retrieve the syscall number.
    pub fn get_sys_num(&self, version: RegVersion) -> (r: usize)
        requires
            model_version(self@, version) is Some,
        ensures
            r == model_get(self@, version, Register::SysNum) as usize,
    {
        self.get(version, Register::SysNum) as usize
    }

    /// Little utility method to quickly modify the syscall number.
    pub fn set_sys_num(&mut self, new_value: usize, justification: &str)
        requires
            old(self)@.current is Some,
        ensures
            final(self)@ == model_set(old(self)@, Register::SysNum, new_value as u64),
    {
        self.set(Register::SysNum, new_value as Word, justification);
    }

    /// Little utility method to quickly void the syscall number.
    pub fn cancel_syscall(&mut self, justification: &str)
        requires
            old(self)@.current is Some,
        ensures
            final(self)@ == model_set(old(self)@, Register::SysNum, VOID),
    {
        self.set(Register::SysNum, VOID, justification);
    }

    pub fn set_restore_original_regs(&mut self, restore_original_regs: bool)
        ensures
            final(self)@ == (RegistersModel { restore_original_regs, ..old(self)@ }),
    {
        self.restore_original_regs = restore_original_regs;
    }

    /// Little utility method to quickly restore the original version
    /// of a register.
    pub fn restore_original(&mut self, register: Register, justification: &str)
        requires
            old(self)@.current is Some,
            old(self)@.original is Some,
        ensures
            final(self)@ == model_set(
                old(self)@,
                register,
                model_get(old(self)@, RegVersion::Original, register),
            ),
    {
        let original_value = self.get(RegVersion::Original, register);
        self.set(register, original_value, justification);
    }
}

/// Distinct registers live in distinct words.
proof fn lemma_reg_index_injective(r1: Register, r2: Register)
    requires
        r1 != r2,
    ensures
        reg_index(r1) != reg_index(r2),
        0 <= reg_index(r1) < REGISTER_SET_WORDS,
{
}

/// Reading a register just set gives the value set.
pub proof fn law_set_then_get(m: RegistersModel, register: Register, value: u64)
    requires
        model_wf(m),
        m.current is Some,
    ensures
        model_get(model_set(m, register, value), RegVersion::Current, register) == value,
        model_wf(model_set(m, register, value)),
{
}

/// Setting a register changes no other register, and no saved version.
pub proof fn law_set_keeps_others(
    m: RegistersModel,
    register: Register,
    other: Register,
    value: u64,
)
    requires
        model_wf(m),
        m.current is Some,
        register != other,
    ensures
        model_get(model_set(m, register, value), RegVersion::Current, other) == model_get(
            m,
            RegVersion::Current,
            other,
        ),
        model_set(m, register, value).original == m.original,
        model_set(m, register, value).modified == m.modified,
        model_set(m, register, value).restore_original_regs == m.restore_original_regs,
{
    lemma_reg_index_injective(register, other);
    lemma_reg_index_injective(other, register);
}

/// Setting a register to the value it holds leaves the cache unchanged, in
/// particular its change mark.
pub proof fn law_set_same_value_is_noop(m: RegistersModel, register: Register)
    requires
        m.current is Some,
    ensures
        model_set(m, register, model_get(m, RegVersion::Current, register)) == m,
{
}

/// Saving the original registers clears the change mark; a change made
/// afterwards sets it.
pub proof fn law_save_original_then_set_marks_change(
    m: RegistersModel,
    register: Register,
    value: u64,
)
    requires
        model_wf(m),
        m.current is Some,
    ensures
        !model_save(m, RegVersion::Original).regs_were_changed,
        model_set(model_save(m, RegVersion::Original), register, value).regs_were_changed
            <==> model_get(m, RegVersion::Current, register) != value,
{
}

/// After the original registers were saved, a register changed and then
/// restored to its original version holds its value of the time of the
/// save.
pub proof fn law_restore_original_undoes_set(m: RegistersModel, register: Register, value: u64)
    requires
        model_wf(m),
        m.current is Some,
    ensures
        ({
            let saved = model_save(m, RegVersion::Original);
            let changed = model_set(saved, register, value);
            let restored = model_set(
                changed,
                register,
                model_get(changed, RegVersion::Original, register),
            );
            model_get(restored, RegVersion::Current, register) == model_get(
                m,
                RegVersion::Current,
                register,
            )
        }),
{
}

/// Restoring the original registers before a push puts back every register
/// of the system call ABI but the result, which keeps its current value.
pub proof fn law_restore_keeps_result(current: Seq<u64>, original: Seq<u64>, register: Register)
    requires
        current.len() == REGISTER_SET_WORDS,
        original.len() == REGISTER_SET_WORDS,
    ensures
        register == Register::SysResult ==> restored_words(current, original)[reg_index(register)]
            == current[reg_index(register)],
        register != Register::SysResult ==> restored_words(current, original)[reg_index(
            register,
        )] == original[reg_index(register)],
{
}

} // verus!
