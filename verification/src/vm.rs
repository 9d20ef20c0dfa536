//! The bytecode virtual machine: instruction decode, 64 cooperative
//! threads over a shared call stack, and the frame loop that yields at
//! blits and resource requests.

use vstd::prelude::*;

use crate::be_u16;
use crate::error::FatalError;
use crate::input::InputState;
use crate::resources::{PolygonResource, PolygonSource};
use crate::video::{
    BlitCommand, CopyVideoPageCommand, DrawCommand, DrawStringCommand, FillVideoPageCommand,
    PaletteCommand, SelectVideoPageCommand, VideoCommand,
};

verus! {

pub const HERO_POS_UP_DOWN: u8 = 0xe5;
pub const HERO_ACTION: u8 = 0xfa;
pub const HERO_POS_JUMP_DOWN: u8 = 0xfb;
pub const HERO_POS_LEFT_RIGHT: u8 = 0xfc;
pub const HERO_POS_MASK: u8 = 0xfd;
pub const HERO_ACTION_POS_MASK: u8 = 0xfe;
pub const RANDOM_SEED: u8 = 0x3c;
pub const SCROLL_Y: u8 = 0xf9;
pub const SLEEP_TICKS: u8 = 0xff;

/// How many instructions one thread may run in a single timeslice before
/// it is treated as runaway bytecode. Well-formed programs yield or pass
/// to the next thread long before this.
pub const TIMESLICE_LIMIT: u32 = 0x1000000;

/// A cursor over a bytecode or polygon buffer. Multi-byte operands are
/// big-endian.
pub struct ProgramCounter<'a> {
    pub mem: &'a [u8],
    pub address: usize,
}

impl<'a> ProgramCounter<'a> {
    /// Read the byte at the cursor and advance past it.
    pub fn read_u8(&mut self) -> (r: Result<u8, FatalError>)
        ensures
            final(self).mem@ == old(self).mem@,
            match r {
                Ok(v) => old(self).address < old(self).mem@.len() && v == old(self).mem@[old(self).address as int] && final(self).address == old(self).address + 1,
                Err(e) => e == FatalError::OutOfRangeRead && old(self).address >= old(self).mem@.len() && final(self).address == old(self).address,
            },
    {
        if self.address < self.mem.len() {
            let v = self.mem[self.address];
            self.address = self.address + 1;
            Ok(v)
        } else {
            Err(FatalError::OutOfRangeRead)
        }
    }

    /// Read a big-endian 16-bit word and advance past it.
    pub fn read_u16(&mut self) -> (r: Result<u16, FatalError>)
        ensures
            final(self).mem@ == old(self).mem@,
            match r {
                Ok(v) => old(self).address + 2 <= old(self).mem@.len() && v == be_u16(
                    old(self).mem@[old(self).address as int],
                    old(self).mem@[old(self).address + 1],
                ) && final(self).address == old(self).address + 2,
                Err(e) => e == FatalError::OutOfRangeRead && old(self).address + 2 > old(self).mem@.len() && final(self).address == old(self).address,
            },
    {
        if self.address < self.mem.len() && self.address + 1 < self.mem.len() {
            let high = self.mem[self.address];
            let low = self.mem[self.address + 1];
            self.address = self.address + 2;
            Ok((high as u16) * 256 + (low as u16))
        } else {
            Err(FatalError::OutOfRangeRead)
        }
    }

    /// Read a big-endian 16-bit word and reinterpret it as signed.
    pub fn read_i16(&mut self) -> (r: Result<i16, FatalError>)
        ensures
            final(self).mem@ == old(self).mem@,
            match r {
                Ok(v) => old(self).address + 2 <= old(self).mem@.len() && v == be_u16(
                    old(self).mem@[old(self).address as int],
                    old(self).mem@[old(self).address + 1],
                ) as i16 && final(self).address == old(self).address + 2,
                Err(e) => e == FatalError::OutOfRangeRead && old(self).address + 2 > old(self).mem@.len() && final(self).address == old(self).address,
            },
    {
        match self.read_u16() {
            Ok(v) => Ok(v as i16),
            Err(e) => Err(e),
        }
    }
}

/// The scheduling record of one bytecode thread. `pc == 0xffff` means the
/// thread is idle; `requested_pc == 0xffff` means no rewiring is pending,
/// and `0xfffe` means the thread dies at the next frame boundary.
#[derive(Debug, Copy, Clone, PartialEq, Eq, Structural)]
pub struct ThreadData {
    pub pc: u16,
    pub requested_pc: u16,
    pub paused: bool,
    pub requested_pause: bool,
}

/// The thread record every slot starts from: idle, nothing requested.
pub open spec fn idle_thread() -> ThreadData {
    (ThreadData { pc: 0xffff, requested_pc: 0xffff, paused: false, requested_pause: false })
}

/// The thread table right after a part starts: thread 0 at the entry
/// point, every other thread idle.
pub open spec fn spec_init_threads() -> Seq<ThreadData> {
    Seq::new(
        64,
        |t: int|
            if t == 0 {
                (ThreadData {
                    pc: 0,
                    requested_pc: 0xffff,
                    paused: false,
                    requested_pause: false,
                })
            } else {
                idle_thread()
            },
    )
}

/// The variable file right after construction: zero everywhere except the
/// fixed presets, plus the copy-protection bypass presets when asked for.
pub open spec fn spec_new_vars(bypass: bool) -> Seq<i16> {
    let v = Seq::new(256, |i: int| 0i16).update(0x54, 0x81i16).update(0x3c, 0x1234i16);
    let v = if bypass {
        v.update(0xbc, 0x10i16).update(0xc6, 0x80i16).update(0xf2, 4000i16).update(0xdc, 33i16)
    } else {
        v
    };
    v.update(0xe4, 0x14i16)
}

/// Right after a part starts, thread 0 alone is runnable, poised at the
/// entry point; every other thread is idle, and no thread has a pending
/// request or pause.
pub proof fn lemma_init_single_runnable()
    ensures
        spec_init_threads().len() == 64,
        spec_init_threads()[0].pc == 0,
        forall|t: int| 1 <= t < 64 ==> (#[trigger] spec_init_threads()[t]).pc == 0xffff,
        forall|t: int|
            0 <= t < 64 ==> (#[trigger] spec_init_threads()[t]).requested_pc == 0xffff
                && !spec_init_threads()[t].paused && !spec_init_threads()[t].requested_pause,
{
}

/// A yield of the virtual machine: a frame barrier with a sleep budget in
/// milliseconds, or a resource-load request for the executor.
#[derive(Debug, Copy, Clone, PartialEq, Eq, Structural)]
pub enum Yield {
    Blit(u64),
    ReqResource(u16),
}

/// What one call of `execute_frame` came to.
#[derive(Debug, Copy, Clone, PartialEq, Eq, Structural)]
pub enum FrameResult {
    Yield(Yield),
    Complete,
}

/// The virtual machine: 256 signed 16-bit variables, 64 cooperative
/// threads, a shared 256-deep call stack, and the queue of video commands
/// of the current frame.
#[derive(Debug)]
pub struct Vm {
    pub variables: Vec<i16>,
    pub thread_data: Vec<ThreadData>,
    pub current_thread: u8,
    pub stack: Vec<u16>,
    pub stack_ptr: usize,
    pub resume_pending: bool,
    pub video_commands: Vec<VideoCommand>,
    pub bypass: bool,
}

impl Vm {
    /// The machine's structural invariant: fixed table sizes, the current
    /// thread and the stack pointer in range.
    pub open spec fn wf(self) -> bool {
        &&& self.variables@.len() == 256
        &&& self.thread_data@.len() == 64
        &&& self.stack@.len() == 256
        &&& self.current_thread < 64
        &&& self.stack_ptr < 256
    }

    /// A fresh machine, with the preset variables written and thread 0
    /// ready at the entry point.
    pub fn new(bypass: bool) -> (r: Vm)
        ensures
            r.wf(),
            r.variables@ == spec_new_vars(bypass),
            r.thread_data@ == spec_init_threads(),
            r.current_thread == 0,
            r.stack_ptr == 0,
            r.resume_pending == false,
            r.video_commands@ == Seq::<VideoCommand>::empty(),
            r.bypass == bypass,
    {
        let mut vm = Vm {
            variables: vec![0i16; 256],
            thread_data: vec![
                ThreadData {
                    pc: 0xffff,
                    requested_pc: 0xffff,
                    paused: false,
                    requested_pause: false,
                };
                64
            ],
            current_thread: 0,
            stack: vec![0u16; 256],
            stack_ptr: 0,
            resume_pending: false,
            video_commands: Vec::new(),
            bypass,
        };
        proof {
            assert(vm.variables@ =~= Seq::new(256, |i: int| 0i16));
        }

        vm.set_var(0x54, 0x81);
        vm.set_var(RANDOM_SEED, 0x1234);

        if vm.bypass {
            vm.set_var(0xbc, 0x10);
            vm.set_var(0xc6, 0x80);
            vm.set_var(0xf2, 4000);
            vm.set_var(0xdc, 33);
        }

        vm.init_part();

        proof {
            assert(vm.thread_data@ =~= spec_init_threads());
        }
        vm
    }

    /// Hand out the video commands of the frame and clear the queue.
    pub fn video_commands(&mut self) -> (r: Vec<VideoCommand>)
        ensures
            r@ == old(self).video_commands@,
            final(self).video_commands@ == Seq::<VideoCommand>::empty(),
            final(self).variables@ == old(self).variables@,
            final(self).thread_data@ == old(self).thread_data@,
            final(self).current_thread == old(self).current_thread,
            final(self).stack@ == old(self).stack@,
            final(self).stack_ptr == old(self).stack_ptr,
            final(self).resume_pending == old(self).resume_pending,
            final(self).bypass == old(self).bypass,
    {
        let mut out: Vec<VideoCommand> = Vec::new();
        std::mem::swap(&mut out, &mut self.video_commands);
        out
    }

    /// Reset the machine for a new part: the timer preset written, thread
    /// 0 at the entry point, every other thread idle, nothing pending.
    pub fn init_part(&mut self)
        requires
            old(self).wf(),
        ensures
            final(self).wf(),
            final(self).variables@ == old(self).variables@.update(0xe4, 0x14i16),
            final(self).thread_data@ == spec_init_threads(),
            final(self).current_thread == 0,
            final(self).resume_pending == false,
            final(self).stack@ == old(self).stack@,
            final(self).stack_ptr == old(self).stack_ptr,
            final(self).video_commands@ == old(self).video_commands@,
            final(self).bypass == old(self).bypass,
    {
        self.set_var(0xe4, 0x14);
        let mut thread: usize = 0;
        while thread < 64
            invariant
                self.wf(),
                thread <= 64,
                self.variables@ == old(self).variables@.update(0xe4, 0x14i16),
                self.stack@ == old(self).stack@,
                self.stack_ptr == old(self).stack_ptr,
                self.video_commands@ == old(self).video_commands@,
                self.bypass == old(self).bypass,
                forall|t: int|
                    0 <= t < thread ==> self.thread_data@[t] == (ThreadData {
                        pc: 0xffff,
                        requested_pc: 0xffff,
                        paused: false,
                        requested_pause: false,
                    }),
                forall|t: int|
                    thread <= t < 64 ==> self.thread_data@[t] == old(self).thread_data@[t],
            decreases 64 - thread,
        {
            self.thread_data[thread] = ThreadData {
                pc: 0xffff,
                requested_pc: 0xffff,
                paused: false,
                requested_pause: false,
            };
            thread = thread + 1;
        }

        self.current_thread = 0;
        let mut td = self.thread_data[0];
        td.pc = 0x0000;
        self.thread_data[0] = td;
        self.resume_pending = false;
        proof {
            assert(self.thread_data@ =~= spec_init_threads());
        }
    }

    /// The value of a variable.
    pub fn get_var(&self, variable_id: u8) -> (r: i16)
        requires
            self.wf(),
        ensures
            r == self.variables@[variable_id as int],
    {
        self.variables[variable_id as usize]
    }

    /// Overwrite a variable.
    pub fn set_var(&mut self, variable_id: u8, value: i16)
        requires
            old(self).wf(),
        ensures
            final(self).wf(),
            final(self).variables@ == old(self).variables@.update(variable_id as int, value),
            final(self).thread_data@ == old(self).thread_data@,
            final(self).current_thread == old(self).current_thread,
            final(self).stack@ == old(self).stack@,
            final(self).stack_ptr == old(self).stack_ptr,
            final(self).resume_pending == old(self).resume_pending,
            final(self).video_commands@ == old(self).video_commands@,
            final(self).bypass == old(self).bypass,
    {
        self.variables[variable_id as usize] = value;
    }

    /// The program counter of a thread. `0xffff` means the thread is idle.
    pub fn thread_pc(&self, thread_id: u8) -> (r: u16)
        requires
            self.wf(),
            thread_id < 64,
        ensures
            r == self.thread_data@[thread_id as int].pc,
    {
        self.thread_data[thread_id as usize].pc
    }
}


/// One decoded instruction, operands included.
#[derive(Debug, Copy, Clone)]
pub enum Instruction {
    MovConst(u8, i16),
    Mov(u8, u8),
    Add(u8, u8),
    AddConst(u8, i16),
    Call(u16),
    Ret,
    TPause,
    Jmp(u16),
    SetVec(u8, u16),
    Jnz(u8, u16),
    CondJmp(JmpCondition, u8, VarOrConst, u16),
    SetPalette(u16),
    TReset(u8, u8, u8),
    SelectVideoPage(u8),
    FillVideoPage(u8, u8),
    CopyVideoPage(u8, u8),
    Blit(u8),
    TKill,
    DrawString(u16, u8, u8, u8),
    Sub(u8, u8),
    And(u8, u16),
    Or(u8, u16),
    Shl(u8, u16),
    Shr(u8, u16),
    PlaySound(u16, u8, u8, u8),
    LoadRes(u16),
    PlayMusic(u16, u16, u8),
    Draw(PolygonResource, VarOrConst, VarOrConst, VarOrConst),
}

/// The comparison of a conditional jump.
#[derive(Debug, Copy, Clone)]
pub enum JmpCondition {
    Eq,
    NotEq,
    Greater,
    GreaterEq,
    Less,
    LessEq,
}

/// An operand that is either a variable reference or an immediate.
#[derive(Debug, Copy, Clone)]
pub enum VarOrConst {
    Variable(u8),
    Const(i16),
}

/// What one instruction asked the scheduler to do.
#[derive(Debug, Copy, Clone)]
pub enum InstructionResult {
    Yield(Yield),
    Continue,
    NextThread,
}

/// How a thread's timeslice ended.
#[derive(Debug, Copy, Clone)]
enum ThreadResult {
    Yield(Yield),
    Continue,
}

spec fn eq_vars(a: Vm, b: Vm) -> bool {
    a.variables@ == b.variables@
}

spec fn eq_threads(a: Vm, b: Vm) -> bool {
    a.thread_data@ == b.thread_data@
}

spec fn eq_stack(a: Vm, b: Vm) -> bool {
    a.stack@ == b.stack@ && a.stack_ptr == b.stack_ptr
}

spec fn eq_cmds(a: Vm, b: Vm) -> bool {
    a.video_commands@ == b.video_commands@
}

spec fn eq_state(a: Vm, b: Vm) -> bool {
    eq_vars(a, b) && eq_threads(a, b) && eq_stack(a, b) && eq_cmds(a, b)
}

/// The thread table of `a` with the current thread's pc rewritten.
pub open spec fn with_cur_pc(a: Vm, pc: u16) -> Seq<ThreadData> {
    a.thread_data@.update(
        a.current_thread as int,
        (ThreadData { pc, ..a.thread_data@[a.current_thread as int] }),
    )
}

/// The value of a variable-or-immediate operand under a variable file.
pub open spec fn resolve(vars: Seq<i16>, v: VarOrConst) -> i16 {
    match v {
        VarOrConst::Variable(id) => vars[id as int],
        VarOrConst::Const(n) => n,
    }
}

/// Whether a conditional jump fires.
pub open spec fn spec_cond(c: JmpCondition, l: i16, r: i16) -> bool {
    match c {
        JmpCondition::Eq => l == r,
        JmpCondition::NotEq => l != r,
        JmpCondition::Greater => l > r,
        JmpCondition::GreaterEq => l >= r,
        JmpCondition::Less => l < r,
        JmpCondition::LessEq => l <= r,
    }
}

/// What a thread-range reset does to one slot of the thread table.
pub open spec fn treset_at(td: ThreadData, s: int, e: int, m: u8, t: int) -> ThreadData {
    if s <= t <= e {
        if m == 2 {
            (ThreadData { requested_pc: 0xfffe, ..td })
        } else if m < 2 {
            (ThreadData { requested_pause: m == 1, ..td })
        } else {
            td
        }
    } else {
        td
    }
}


/// The machine's state, abstracted: the variable file, the thread table,
/// the current thread, the call stack with its pointer, and the video
/// commands queued so far. The resume flag and the bypass switch live
/// beside it, not in it.
pub struct VmSt {
    pub vars: Seq<i16>,
    pub threads: Seq<ThreadData>,
    pub cur: int,
    pub stack: Seq<u16>,
    pub sp: int,
    pub cmds: Seq<VideoCommand>,
}

/// The machine's abstract state.
pub open spec fn vm_st(v: Vm) -> VmSt {
    VmSt {
        vars: v.variables@,
        threads: v.thread_data@,
        cur: v.current_thread as int,
        stack: v.stack@,
        sp: v.stack_ptr as int,
        cmds: v.video_commands@,
    }
}

/// The state with one variable overwritten.
pub open spec fn st_set_var(s: VmSt, id: u8, v: i16) -> VmSt {
    VmSt { vars: s.vars.update(id as int, v), ..s }
}

/// The state with the current thread's program counter rewritten.
pub open spec fn st_cur_pc(s: VmSt, pc: u16) -> VmSt {
    VmSt { threads: s.threads.update(s.cur, (ThreadData { pc, ..s.threads[s.cur] })), ..s }
}

/// The state with one video command appended.
pub open spec fn st_push_cmd(s: VmSt, c: VideoCommand) -> VmSt {
    VmSt { cmds: s.cmds.push(c), ..s }
}

/// What one instruction does to the machine: the successor state and the
/// scheduling outcome, or `None` on a fatal condition (stack overflow or
/// underflow, a bad thread reference, a backwards reset range).
pub open spec fn sp_exec(s: VmSt, i: Instruction) -> Option<(VmSt, InstructionResult)> {
    match i {
        Instruction::MovConst(dst, value) => Some(
            (st_set_var(s, dst, value), InstructionResult::Continue),
        ),
        Instruction::Mov(dst, src) => Some(
            (st_set_var(s, dst, s.vars[src as int]), InstructionResult::Continue),
        ),
        Instruction::Add(dst, src) => Some(
            (
                st_set_var(
                    s,
                    dst,
                    vstd::wrapping::i16_specs::wrapping_add(
                        s.vars[dst as int],
                        s.vars[src as int],
                    ),
                ),
                InstructionResult::Continue,
            ),
        ),
        Instruction::AddConst(dst, value) => Some(
            (
                st_set_var(
                    s,
                    dst,
                    vstd::wrapping::i16_specs::wrapping_add(s.vars[dst as int], value),
                ),
                InstructionResult::Continue,
            ),
        ),
        Instruction::Call(dest) => if s.sp == 0xff {
            None
        } else {
            Some(
                (
                    (VmSt {
                        stack: s.stack.update(s.sp, s.threads[s.cur].pc),
                        sp: s.sp + 1,
                        threads: s.threads.update(
                            s.cur,
                            (ThreadData { pc: dest, ..s.threads[s.cur] }),
                        ),
                        ..s
                    }),
                    InstructionResult::Continue,
                ),
            )
        },
        Instruction::Ret => if s.sp == 0 {
            None
        } else {
            Some(
                (
                    (VmSt {
                        sp: s.sp - 1,
                        threads: s.threads.update(
                            s.cur,
                            (ThreadData { pc: s.stack[s.sp - 1], ..s.threads[s.cur] }),
                        ),
                        ..s
                    }),
                    InstructionResult::Continue,
                ),
            )
        },
        Instruction::TPause => Some((s, InstructionResult::NextThread)),
        Instruction::Jmp(dest) => Some((st_cur_pc(s, dest), InstructionResult::Continue)),
        Instruction::SetVec(tid, pc) => if tid >= 64 {
            None
        } else {
            Some(
                (
                    (VmSt {
                        threads: s.threads.update(
                            tid as int,
                            (ThreadData { requested_pc: pc, ..s.threads[tid as int] }),
                        ),
                        ..s
                    }),
                    InstructionResult::Continue,
                ),
            )
        },
        Instruction::Jnz(var, dest) => {
            let nv = vstd::wrapping::i16_specs::wrapping_sub(s.vars[var as int], 1);
            let s2 = st_set_var(s, var, nv);
            Some(
                (
                    if nv != 0 {
                        st_cur_pc(s2, dest)
                    } else {
                        s2
                    },
                    InstructionResult::Continue,
                ),
            )
        },
        Instruction::CondJmp(condition, variable, operand, dest) => Some(
            (
                if spec_cond(condition, s.vars[variable as int], resolve(s.vars, operand)) {
                    st_cur_pc(s, dest)
                } else {
                    s
                },
                InstructionResult::Continue,
            ),
        ),
        Instruction::SetPalette(palette_id) => Some(
            (
                st_push_cmd(
                    s,
                    VideoCommand::Palette(PaletteCommand { palette_id: (palette_id >> 8) as u8 }),
                ),
                InstructionResult::Continue,
            ),
        ),
        Instruction::TReset(thread_start, thread_end, mode) => {
            let e2 = if thread_end >= 64 {
                thread_end & 63
            } else {
                thread_end
            };
            if e2 < thread_start {
                None
            } else {
                Some(
                    (
                        (VmSt {
                            threads: Seq::new(
                                64,
                                |t: int|
                                    treset_at(s.threads[t], thread_start as int, e2 as int, mode, t),
                            ),
                            ..s
                        }),
                        InstructionResult::Continue,
                    ),
                )
            }
        },
        Instruction::SelectVideoPage(page_id) => Some(
            (
                st_push_cmd(s, VideoCommand::SelectVideoPage(SelectVideoPageCommand { page_id })),
                InstructionResult::Continue,
            ),
        ),
        Instruction::FillVideoPage(page_id, color) => Some(
            (
                st_push_cmd(s, VideoCommand::FillVideoPage(FillVideoPageCommand { page_id, color })),
                InstructionResult::Continue,
            ),
        ),
        Instruction::CopyVideoPage(src_page_id, dest_page_id) => Some(
            (
                st_push_cmd(
                    s,
                    VideoCommand::CopyVideoPage(
                        CopyVideoPageCommand {
                            src_page_id,
                            dest_page_id,
                            scroll: s.vars[SCROLL_Y as int],
                        },
                    ),
                ),
                InstructionResult::Continue,
            ),
        ),
        Instruction::Blit(page_id) => Some(
            (
                st_push_cmd(
                    st_set_var(s, 0xf7, 0i16),
                    VideoCommand::Blit(BlitCommand { page_id }),
                ),
                InstructionResult::Yield(
                    Yield::Blit(
                        vstd::wrapping::u64_specs::wrapping_mul(
                            s.vars[SLEEP_TICKS as int] as u64,
                            20,
                        ),
                    ),
                ),
            ),
        ),
        Instruction::TKill => Some((st_cur_pc(s, 0xffff), InstructionResult::NextThread)),
        Instruction::DrawString(string_id, x, y, color) => Some(
            (
                st_push_cmd(
                    s,
                    VideoCommand::DrawString(DrawStringCommand { string_id, x, y, color }),
                ),
                InstructionResult::Continue,
            ),
        ),
        Instruction::Sub(dst, src) => Some(
            (
                st_set_var(
                    s,
                    dst,
                    vstd::wrapping::i16_specs::wrapping_sub(
                        s.vars[dst as int],
                        s.vars[src as int],
                    ),
                ),
                InstructionResult::Continue,
            ),
        ),
        Instruction::And(dst, value) => Some(
            (
                st_set_var(s, dst, ((s.vars[dst as int] as u16) & value) as i16),
                InstructionResult::Continue,
            ),
        ),
        Instruction::Or(dst, value) => Some(
            (
                st_set_var(s, dst, ((s.vars[dst as int] as u16) | value) as i16),
                InstructionResult::Continue,
            ),
        ),
        Instruction::Shl(dst, value) => Some(
            (
                st_set_var(
                    s,
                    dst,
                    vstd::wrapping::u16_specs::wrapping_shl(
                        s.vars[dst as int] as u16,
                        value as u32,
                    ) as i16,
                ),
                InstructionResult::Continue,
            ),
        ),
        Instruction::Shr(dst, value) => Some(
            (
                st_set_var(
                    s,
                    dst,
                    vstd::wrapping::u16_specs::wrapping_shr(
                        s.vars[dst as int] as u16,
                        value as u32,
                    ) as i16,
                ),
                InstructionResult::Continue,
            ),
        ),
        Instruction::PlaySound(_res_id, _freq, _vol, _channel) => Some(
            (s, InstructionResult::Continue),
        ),
        Instruction::LoadRes(res_id) => Some(
            (s, InstructionResult::Yield(Yield::ReqResource(res_id))),
        ),
        Instruction::PlayMusic(_res_id, _delay, _pos) => Some((s, InstructionResult::Continue)),
        Instruction::Draw(polygon, x, y, zoom) => Some(
            (
                st_push_cmd(
                    s,
                    VideoCommand::Draw(
                        DrawCommand {
                            polygon,
                            x: resolve(s.vars, x),
                            y: resolve(s.vars, y),
                            zoom: resolve(s.vars, zoom),
                        },
                    ),
                ),
                InstructionResult::Continue,
            ),
        ),
    }
}

impl Vm {
    /// Run one instruction against the machine state. The contract pins
    /// the whole state transition of every opcode; errors mirror the
    /// fatal bytecode conditions and leave the state untouched.
    #[verifier::rlimit(60)]
    fn execute(&mut self, instruction: Instruction) -> (r: Result<InstructionResult, FatalError>)
        requires
            old(self).wf(),
        ensures
            final(self).wf(),
            final(self).current_thread == old(self).current_thread,
            final(self).resume_pending == old(self).resume_pending,
            final(self).bypass == old(self).bypass,
            match sp_exec(vm_st(*old(self)), instruction) {
                Some((s2, ir)) => r == Ok::<InstructionResult, FatalError>(ir) && vm_st(
                    *final(self),
                ) == s2,
                None => r is Err,
            },
            match instruction {
                Instruction::MovConst(dst, value) => r == Ok::<InstructionResult, FatalError>(InstructionResult::Continue)
                    && final(self).variables@ == old(self).variables@.update(dst as int, value)
                    && eq_threads(*old(self), *final(self)) && eq_stack(*old(self), *final(self))
                    && eq_cmds(*old(self), *final(self)),
                Instruction::Mov(dst, src) => r == Ok::<InstructionResult, FatalError>(InstructionResult::Continue)
                    && final(self).variables@ == old(self).variables@.update(
                    dst as int,
                    old(self).variables@[src as int],
                ) && eq_threads(*old(self), *final(self)) && eq_stack(*old(self), *final(self))
                    && eq_cmds(*old(self), *final(self)),
                Instruction::Add(dst, src) => r == Ok::<InstructionResult, FatalError>(InstructionResult::Continue)
                    && final(self).variables@ == old(self).variables@.update(
                    dst as int,
                    vstd::wrapping::i16_specs::wrapping_add(
                        old(self).variables@[dst as int],
                        old(self).variables@[src as int],
                    ),
                ) && eq_threads(*old(self), *final(self)) && eq_stack(*old(self), *final(self))
                    && eq_cmds(*old(self), *final(self)),
                Instruction::AddConst(dst, value) => r == Ok::<InstructionResult, FatalError>(InstructionResult::Continue)
                    && final(self).variables@ == old(self).variables@.update(
                    dst as int,
                    vstd::wrapping::i16_specs::wrapping_add(old(self).variables@[dst as int], value),
                ) && eq_threads(*old(self), *final(self)) && eq_stack(*old(self), *final(self))
                    && eq_cmds(*old(self), *final(self)),
                Instruction::Call(dest) => if old(self).stack_ptr == 0xff {
                    r == Err::<InstructionResult, FatalError>(FatalError::StackOverflow)
                        && eq_state(*old(self), *final(self))
                } else {
                    r == Ok::<InstructionResult, FatalError>(InstructionResult::Continue) && eq_vars(*old(self), *final(self))
                        && eq_cmds(*old(self), *final(self)) && final(self).stack@ == old(self).stack@.update(
                        old(self).stack_ptr as int,
                        old(self).thread_data@[old(self).current_thread as int].pc,
                    ) && final(self).stack_ptr == old(self).stack_ptr + 1 && final(self).thread_data@ == with_cur_pc(*old(self), dest)
                },
                Instruction::Ret => if old(self).stack_ptr == 0 {
                    r == Err::<InstructionResult, FatalError>(FatalError::StackUnderflow)
                        && eq_state(*old(self), *final(self))
                } else {
                    r == Ok::<InstructionResult, FatalError>(InstructionResult::Continue) && eq_vars(*old(self), *final(self))
                        && eq_cmds(*old(self), *final(self)) && final(self).stack@ == old(self).stack@ && final(self).stack_ptr == old(self).stack_ptr - 1 && final(self).thread_data@ == with_cur_pc(
                        *old(self),
                        old(self).stack@[old(self).stack_ptr - 1],
                    )
                },
                Instruction::TPause => r == Ok::<InstructionResult, FatalError>(InstructionResult::NextThread) && eq_state(
                    *old(self),
                    *final(self),
                ),
                Instruction::Jmp(dest) => r == Ok::<InstructionResult, FatalError>(InstructionResult::Continue) && final(self).thread_data@ == with_cur_pc(*old(self), dest) && eq_vars(*old(self), *final(self))
                    && eq_stack(*old(self), *final(self)) && eq_cmds(*old(self), *final(self)),
                Instruction::SetVec(tid, pc) => if tid >= 64 {
                    r == Err::<InstructionResult, FatalError>(FatalError::InvalidThreadId(tid))
                        && eq_state(*old(self), *final(self))
                } else {
                    r == Ok::<InstructionResult, FatalError>(InstructionResult::Continue) && final(self).thread_data@ == old(self).thread_data@.update(
                        tid as int,
                        (ThreadData { requested_pc: pc, ..old(self).thread_data@[tid as int] }),
                    ) && eq_vars(*old(self), *final(self)) && eq_stack(*old(self), *final(self))
                        && eq_cmds(*old(self), *final(self))
                },
                Instruction::Jnz(var, dest) => {
                    let nv = vstd::wrapping::i16_specs::wrapping_sub(
                        old(self).variables@[var as int],
                        1,
                    );
                    r == Ok::<InstructionResult, FatalError>(InstructionResult::Continue) && final(self).variables@ == old(self).variables@.update(var as int, nv) && final(self).thread_data@ == (if nv != 0 {
                        with_cur_pc(*old(self), dest)
                    } else {
                        old(self).thread_data@
                    }) && eq_stack(*old(self), *final(self)) && eq_cmds(*old(self), *final(self))
                },
                Instruction::CondJmp(condition, variable, operand, dest) => {
                    let take = spec_cond(
                        condition,
                        old(self).variables@[variable as int],
                        resolve(old(self).variables@, operand),
                    );
                    r == Ok::<InstructionResult, FatalError>(InstructionResult::Continue) && final(self).thread_data@ == (if take {
                        with_cur_pc(*old(self), dest)
                    } else {
                        old(self).thread_data@
                    }) && eq_vars(*old(self), *final(self)) && eq_stack(*old(self), *final(self))
                        && eq_cmds(*old(self), *final(self))
                },
                Instruction::SetPalette(palette_id) => r == Ok::<InstructionResult, FatalError>(InstructionResult::Continue)
                    && final(self).video_commands@ == old(self).video_commands@.push(
                    VideoCommand::Palette(PaletteCommand { palette_id: (palette_id >> 8) as u8 }),
                ) && eq_vars(*old(self), *final(self)) && eq_threads(*old(self), *final(self))
                    && eq_stack(*old(self), *final(self)),
                Instruction::TReset(thread_start, thread_end, mode) => {
                    let e2 = if thread_end >= 64 {
                        thread_end & 63
                    } else {
                        thread_end
                    };
                    if e2 < thread_start {
                        r == Err::<InstructionResult, FatalError>(FatalError::InvalidThreadRange)
                            && eq_state(*old(self), *final(self))
                    } else {
                        r == Ok::<InstructionResult, FatalError>(InstructionResult::Continue) && final(self).thread_data@
                            == Seq::new(
                            64,
                            |t: int|
                                treset_at(
                                    old(self).thread_data@[t],
                                    thread_start as int,
                                    e2 as int,
                                    mode,
                                    t,
                                ),
                        ) && eq_vars(*old(self), *final(self)) && eq_stack(*old(self), *final(self))
                            && eq_cmds(*old(self), *final(self))
                    }
                },
                Instruction::SelectVideoPage(page_id) => r == Ok::<InstructionResult, FatalError>(InstructionResult::Continue)
                    && final(self).video_commands@ == old(self).video_commands@.push(
                    VideoCommand::SelectVideoPage(SelectVideoPageCommand { page_id }),
                ) && eq_vars(*old(self), *final(self)) && eq_threads(*old(self), *final(self))
                    && eq_stack(*old(self), *final(self)),
                Instruction::FillVideoPage(page_id, color) => r == Ok::<InstructionResult, FatalError>(InstructionResult::Continue)
                    && final(self).video_commands@ == old(self).video_commands@.push(
                    VideoCommand::FillVideoPage(FillVideoPageCommand { page_id, color }),
                ) && eq_vars(*old(self), *final(self)) && eq_threads(*old(self), *final(self))
                    && eq_stack(*old(self), *final(self)),
                Instruction::CopyVideoPage(src_page_id, dest_page_id) => r == Ok::<InstructionResult, FatalError>(
                    InstructionResult::Continue,
                ) && final(self).video_commands@ == old(self).video_commands@.push(
                    VideoCommand::CopyVideoPage(
                        CopyVideoPageCommand {
                            src_page_id,
                            dest_page_id,
                            scroll: old(self).variables@[SCROLL_Y as int],
                        },
                    ),
                ) && eq_vars(*old(self), *final(self)) && eq_threads(*old(self), *final(self))
                    && eq_stack(*old(self), *final(self)),
                Instruction::Blit(page_id) => r == Ok::<InstructionResult, FatalError>(
                    InstructionResult::Yield(
                        Yield::Blit(
                            vstd::wrapping::u64_specs::wrapping_mul(
                                old(self).variables@[SLEEP_TICKS as int] as u64,
                                20,
                            ),
                        ),
                    ),
                ) && final(self).variables@ == old(self).variables@.update(0xf7, 0i16) && final(self).video_commands@ == old(self).video_commands@.push(
                    VideoCommand::Blit(BlitCommand { page_id }),
                ) && eq_threads(*old(self), *final(self)) && eq_stack(*old(self), *final(self)),
                Instruction::TKill => r == Ok::<InstructionResult, FatalError>(InstructionResult::NextThread) && final(self).thread_data@ == with_cur_pc(*old(self), 0xffff) && eq_vars(*old(self), *final(self))
                    && eq_stack(*old(self), *final(self)) && eq_cmds(*old(self), *final(self)),
                Instruction::DrawString(string_id, x, y, color) => r == Ok::<InstructionResult, FatalError>(
                    InstructionResult::Continue,
                ) && final(self).video_commands@ == old(self).video_commands@.push(
                    VideoCommand::DrawString(DrawStringCommand { string_id, x, y, color }),
                ) && eq_vars(*old(self), *final(self)) && eq_threads(*old(self), *final(self))
                    && eq_stack(*old(self), *final(self)),
                Instruction::Sub(dst, src) => r == Ok::<InstructionResult, FatalError>(InstructionResult::Continue)
                    && final(self).variables@ == old(self).variables@.update(
                    dst as int,
                    vstd::wrapping::i16_specs::wrapping_sub(
                        old(self).variables@[dst as int],
                        old(self).variables@[src as int],
                    ),
                ) && eq_threads(*old(self), *final(self)) && eq_stack(*old(self), *final(self))
                    && eq_cmds(*old(self), *final(self)),
                Instruction::And(dst, value) => r == Ok::<InstructionResult, FatalError>(InstructionResult::Continue)
                    && final(self).variables@ == old(self).variables@.update(
                    dst as int,
                    ((old(self).variables@[dst as int] as u16) & value) as i16,
                ) && eq_threads(*old(self), *final(self)) && eq_stack(*old(self), *final(self))
                    && eq_cmds(*old(self), *final(self)),
                Instruction::Or(dst, value) => r == Ok::<InstructionResult, FatalError>(InstructionResult::Continue)
                    && final(self).variables@ == old(self).variables@.update(
                    dst as int,
                    ((old(self).variables@[dst as int] as u16) | value) as i16,
                ) && eq_threads(*old(self), *final(self)) && eq_stack(*old(self), *final(self))
                    && eq_cmds(*old(self), *final(self)),
                Instruction::Shl(dst, value) => r == Ok::<InstructionResult, FatalError>(InstructionResult::Continue)
                    && final(self).variables@ == old(self).variables@.update(
                    dst as int,
                    vstd::wrapping::u16_specs::wrapping_shl(
                        old(self).variables@[dst as int] as u16,
                        value as u32,
                    ) as i16,
                ) && eq_threads(*old(self), *final(self)) && eq_stack(*old(self), *final(self))
                    && eq_cmds(*old(self), *final(self)),
                Instruction::Shr(dst, value) => r == Ok::<InstructionResult, FatalError>(InstructionResult::Continue)
                    && final(self).variables@ == old(self).variables@.update(
                    dst as int,
                    vstd::wrapping::u16_specs::wrapping_shr(
                        old(self).variables@[dst as int] as u16,
                        value as u32,
                    ) as i16,
                ) && eq_threads(*old(self), *final(self)) && eq_stack(*old(self), *final(self))
                    && eq_cmds(*old(self), *final(self)),
                Instruction::PlaySound(_res_id, _freq, _vol, _channel) => r == Ok::<InstructionResult, FatalError>(
                    InstructionResult::Continue,
                ) && eq_state(*old(self), *final(self)),
                Instruction::LoadRes(res_id) => r == Ok::<InstructionResult, FatalError>(
                    InstructionResult::Yield(Yield::ReqResource(res_id)),
                ) && eq_state(*old(self), *final(self)),
                Instruction::PlayMusic(_res_id, _delay, _pos) => r == Ok::<InstructionResult, FatalError>(
                    InstructionResult::Continue,
                ) && eq_state(*old(self), *final(self)),
                Instruction::Draw(polygon, x, y, zoom) => r == Ok::<InstructionResult, FatalError>(InstructionResult::Continue)
                    && final(self).video_commands@ == old(self).video_commands@.push(
                    VideoCommand::Draw(
                        DrawCommand {
                            polygon,
                            x: resolve(old(self).variables@, x),
                            y: resolve(old(self).variables@, y),
                            zoom: resolve(old(self).variables@, zoom),
                        },
                    ),
                ) && eq_vars(*old(self), *final(self)) && eq_threads(*old(self), *final(self))
                    && eq_stack(*old(self), *final(self)),
            },
    {
        match instruction {
            Instruction::MovConst(dest, value) => {
                self.set_var(dest, value);
            },
            Instruction::Mov(dest, src) => {
                let v = self.get_var(src);
                self.set_var(dest, v);
            },
            Instruction::Add(dest, src) => {
                let res = self.get_var(dest).wrapping_add(self.get_var(src));
                self.set_var(dest, res);
            },
            Instruction::AddConst(dest, value) => {
                let res = self.get_var(dest).wrapping_add(value);
                self.set_var(dest, res);
            },
            Instruction::Call(dest) => {
                if self.stack_ptr == 0xff {
                    return Err(FatalError::StackOverflow);
                }
                let t = self.current_thread as usize;
                self.stack[self.stack_ptr] = self.thread_data[t].pc;
                self.stack_ptr = self.stack_ptr + 1;
                let mut td = self.thread_data[t];
                td.pc = dest;
                self.thread_data[t] = td;
            },
            Instruction::Ret => {
                if self.stack_ptr == 0 {
                    return Err(FatalError::StackUnderflow);
                }
                self.stack_ptr = self.stack_ptr - 1;
                let t = self.current_thread as usize;
                let mut td = self.thread_data[t];
                td.pc = self.stack[self.stack_ptr];
                self.thread_data[t] = td;
            },
            Instruction::TPause => {
                return Ok(InstructionResult::NextThread);
            },
            Instruction::Jmp(dest) => {
                let t = self.current_thread as usize;
                let mut td = self.thread_data[t];
                td.pc = dest;
                self.thread_data[t] = td;
            },
            Instruction::SetVec(thread_id, pc) => {
                if thread_id >= 64 {
                    return Err(FatalError::InvalidThreadId(thread_id));
                }
                let mut td = self.thread_data[thread_id as usize];
                td.requested_pc = pc;
                self.thread_data[thread_id as usize] = td;
            },
            Instruction::Jnz(var, dest) => {
                let res = self.get_var(var).wrapping_sub(1);
                self.set_var(var, res);
                if res != 0 {
                    let t = self.current_thread as usize;
                    let mut td = self.thread_data[t];
                    td.pc = dest;
                    self.thread_data[t] = td;
                }
            },
            Instruction::CondJmp(condition, variable, operand, dest) => {
                let left = self.get_var(variable);
                let right = match operand {
                    VarOrConst::Variable(var) => self.get_var(var),
                    VarOrConst::Const(val) => val,
                };
                let take_jump = match condition {
                    JmpCondition::Eq => left == right,
                    JmpCondition::NotEq => left != right,
                    JmpCondition::Greater => left > right,
                    JmpCondition::GreaterEq => left >= right,
                    JmpCondition::Less => left < right,
                    JmpCondition::LessEq => left <= right,
                };
                if take_jump {
                    let t = self.current_thread as usize;
                    let mut td = self.thread_data[t];
                    td.pc = dest;
                    self.thread_data[t] = td;
                }
            },
            Instruction::SetPalette(palette_id) => {
                self.video_commands.push(
                    VideoCommand::Palette(PaletteCommand { palette_id: (palette_id >> 8) as u8 }),
                );
            },
            Instruction::TReset(thread_start, thread_end, mode) => {
                let end: u8 = if thread_end >= 64 {
                    thread_end & 63
                } else {
                    thread_end
                };
                proof {
                    assert((thread_end & 63) < 64) by (bit_vector);
                }
                if end < thread_start {
                    return Err(FatalError::InvalidThreadRange);
                }
                let ghost e2 = end as int;
                let ghost s = thread_start as int;
                if mode == 2 {
                    let mut t: usize = thread_start as usize;
                    while t <= end as usize
                        invariant
                            self.wf(),
                            e2 == end as int,
                            s == thread_start as int,
                            s <= t <= e2 + 1,
                            0 <= s <= e2 < 64,
                            eq_vars(*old(self), *self),
                            eq_stack(*old(self), *self),
                            eq_cmds(*old(self), *self),
                            self.current_thread == old(self).current_thread,
                            self.resume_pending == old(self).resume_pending,
                            self.bypass == old(self).bypass,
                            forall|j: int|
                                0 <= j < 64 ==> self.thread_data@[j] == (if s <= j < t {
                                    treset_at(old(self).thread_data@[j], s, e2, 2, j)
                                } else {
                                    old(self).thread_data@[j]
                                }),
                        decreases e2 + 1 - t,
                    {
                        let mut td = self.thread_data[t];
                        td.requested_pc = 0xfffe;
                        self.thread_data[t] = td;
                        t = t + 1;
                    }
                } else if mode < 2 {
                    let mut t: usize = thread_start as usize;
                    while t <= end as usize
                        invariant
                            self.wf(),
                            e2 == end as int,
                            s == thread_start as int,
                            s <= t <= e2 + 1,
                            0 <= s <= e2 < 64,
                            mode < 2,
                            eq_vars(*old(self), *self),
                            eq_stack(*old(self), *self),
                            eq_cmds(*old(self), *self),
                            self.current_thread == old(self).current_thread,
                            self.resume_pending == old(self).resume_pending,
                            self.bypass == old(self).bypass,
                            forall|j: int|
                                0 <= j < 64 ==> self.thread_data@[j] == (if s <= j < t {
                                    treset_at(old(self).thread_data@[j], s, e2, mode, j)
                                } else {
                                    old(self).thread_data@[j]
                                }),
                        decreases e2 + 1 - t,
                    {
                        let mut td = self.thread_data[t];
                        td.requested_pause = mode == 1;
                        self.thread_data[t] = td;
                        t = t + 1;
                    }
                }
                proof {
                    assert(self.thread_data@ =~= Seq::new(
                        64,
                        |t: int|
                            treset_at(
                                old(self).thread_data@[t],
                                thread_start as int,
                                end as int,
                                mode,
                                t,
                            ),
                    ));
                }
            },
            Instruction::SelectVideoPage(page_id) => {
                self.video_commands.push(
                    VideoCommand::SelectVideoPage(SelectVideoPageCommand { page_id }),
                );
            },
            Instruction::FillVideoPage(page_id, color) => {
                self.video_commands.push(
                    VideoCommand::FillVideoPage(FillVideoPageCommand { page_id, color }),
                );
            },
            Instruction::CopyVideoPage(src_page_id, dest_page_id) => {
                let scroll = self.get_var(SCROLL_Y);
                self.video_commands.push(
                    VideoCommand::CopyVideoPage(
                        CopyVideoPageCommand { src_page_id, dest_page_id, scroll },
                    ),
                );
            },
            Instruction::Blit(page_id) => {
                self.set_var(0xf7, 0);
                let ticks = self.get_var(SLEEP_TICKS);
                let duration = u64::wrapping_mul(ticks as u64, 20);
                self.video_commands.push(VideoCommand::Blit(BlitCommand { page_id }));
                return Ok(InstructionResult::Yield(Yield::Blit(duration)));
            },
            Instruction::TKill => {
                let t = self.current_thread as usize;
                let mut td = self.thread_data[t];
                td.pc = 0xffff;
                self.thread_data[t] = td;
                return Ok(InstructionResult::NextThread);
            },
            Instruction::DrawString(string_id, x, y, color) => {
                self.video_commands.push(
                    VideoCommand::DrawString(DrawStringCommand { string_id, x, y, color }),
                );
            },
            Instruction::Sub(dest, src) => {
                let res = self.get_var(dest).wrapping_sub(self.get_var(src));
                self.set_var(dest, res);
            },
            Instruction::And(dest, value) => {
                let res = (self.get_var(dest) as u16) & value;
                self.set_var(dest, res as i16);
            },
            Instruction::Or(dest, value) => {
                let res = (self.get_var(dest) as u16) | value;
                self.set_var(dest, res as i16);
            },
            Instruction::Shl(dest, value) => {
                let res = u16::wrapping_shl(self.get_var(dest) as u16, value as u32);
                self.set_var(dest, res as i16);
            },
            Instruction::Shr(dest, value) => {
                let res = u16::wrapping_shr(self.get_var(dest) as u16, value as u32);
                self.set_var(dest, res as i16);
            },
            Instruction::PlaySound(_res_id, _freq, _vol, _channel) => (),
            Instruction::LoadRes(res_id) => {
                return Ok(InstructionResult::Yield(Yield::ReqResource(res_id)));
            },
            Instruction::PlayMusic(_res_id, _delay, _pos) => (),
            Instruction::Draw(polygon, x, y, zoom) => {
                let x = match x {
                    VarOrConst::Variable(v) => self.get_var(v),
                    VarOrConst::Const(n) => n,
                };
                let y = match y {
                    VarOrConst::Variable(v) => self.get_var(v),
                    VarOrConst::Const(n) => n,
                };
                let zoom = match zoom {
                    VarOrConst::Variable(v) => self.get_var(v),
                    VarOrConst::Const(n) => n,
                };
                self.video_commands.push(
                    VideoCommand::Draw(DrawCommand { polygon, x, y, zoom }),
                );
            },
        }
        Ok(InstructionResult::Continue)
    }
}


/// The condition encoded by the low bits of a conditional jump's sub-op.
pub open spec fn spec_condition(c: u8) -> JmpCondition {
    if c == 0 {
        JmpCondition::Eq
    } else if c == 1 {
        JmpCondition::NotEq
    } else if c == 2 {
        JmpCondition::Greater
    } else if c == 3 {
        JmpCondition::GreaterEq
    } else if c == 4 {
        JmpCondition::Less
    } else {
        JmpCondition::LessEq
    }
}

/// Big-endian word at an offset of a buffer.
pub open spec fn sd_u16(m: Seq<u8>, a: int) -> u16 {
    be_u16(m[a], m[a + 1])
}

/// Big-endian word at an offset, reinterpreted as signed.
pub open spec fn sd_i16(m: Seq<u8>, a: int) -> i16 {
    sd_u16(m, a) as i16
}

/// Decode of a conditional jump, sub-op byte and onwards.
pub open spec fn spec_decode_condjmp(m: Seq<u8>, a: int) -> Option<(Instruction, int)> {
    if a + 3 > m.len() {
        None
    } else {
        let op = m[a + 1];
        let variable = m[a + 2];
        if (op & 0x7) > 5 {
            None
        } else {
            let condition = spec_condition(op & 0x7);
            if op & 0xc0 == 0x80 || op & 0xc0 == 0xc0 {
                if a + 6 <= m.len() {
                    Some(
                        (
                            Instruction::CondJmp(
                                condition,
                                variable,
                                VarOrConst::Variable(m[a + 3]),
                                sd_u16(m, a + 4),
                            ),
                            a + 6,
                        ),
                    )
                } else {
                    None
                }
            } else if op & 0xc0 == 0x40 {
                if a + 7 <= m.len() {
                    Some(
                        (
                            Instruction::CondJmp(
                                condition,
                                variable,
                                VarOrConst::Const(sd_i16(m, a + 3)),
                                sd_u16(m, a + 5),
                            ),
                            a + 7,
                        ),
                    )
                } else {
                    None
                }
            } else {
                if a + 6 <= m.len() {
                    Some(
                        (
                            Instruction::CondJmp(
                                condition,
                                variable,
                                VarOrConst::Const(m[a + 3] as i16),
                                sd_u16(m, a + 4),
                            ),
                            a + 6,
                        ),
                    )
                } else {
                    None
                }
            }
        }
    }
}

/// Decode of a short-form draw: the opcode's low bits extend the offset,
/// the position is absolute with the bottom-edge clamp.
pub open spec fn spec_decode_draw_abs(m: Seq<u8>, a: int) -> Option<(Instruction, int)> {
    if a + 4 > m.len() {
        None
    } else {
        let offset = be_u16(m[a], m[a + 1]);
        let xv = m[a + 2] as i16;
        let yv = m[a + 3] as i16;
        let h = yv - 199;
        let x = if h > 0 {
            (xv + h) as i16
        } else {
            xv
        };
        let y = if h > 0 {
            199i16
        } else {
            yv
        };
        Some(
            (
                Instruction::Draw(
                    (PolygonResource {
                        buffer_offset: vstd::wrapping::u16_specs::wrapping_mul(offset, 2) as usize,
                        source: PolygonSource::Cinematic,
                    }),
                    VarOrConst::Const(x),
                    VarOrConst::Const(y),
                    VarOrConst::Const(0x40),
                ),
                a + 4,
            ),
        )
    }
}

/// Decode of a long-form draw: the opcode's bit fields choose how x, y and
/// zoom are encoded, and which polygon buffer is read.
pub open spec fn spec_decode_draw_var(m: Seq<u8>, a: int) -> Option<(Instruction, int)> {
    if a + 3 > m.len() {
        None
    } else {
        let op = m[a];
        let offset = sd_u16(m, a + 1);
        let xlen: int = if op & 0x30 == 0x00 {
            2
        } else {
            1
        };
        let ylen: int = if op & 0x0c == 0x00 {
            2
        } else {
            1
        };
        let zlen: int = if op & 0x03 == 0x01 || op & 0x03 == 0x02 {
            1
        } else {
            0
        };
        if a + 3 + xlen + ylen + zlen > m.len() {
            None
        } else {
            let xc = a + 3;
            let yc = xc + xlen;
            let zc = yc + ylen;
            let x = if op & 0x30 == 0x00 {
                VarOrConst::Const(sd_i16(m, xc))
            } else if op & 0x30 == 0x10 {
                VarOrConst::Variable(m[xc])
            } else if op & 0x30 == 0x20 {
                VarOrConst::Const(m[xc] as i16)
            } else {
                VarOrConst::Const((m[xc] + 0x100) as i16)
            };
            let y = if op & 0x0c == 0x00 {
                VarOrConst::Const(sd_i16(m, yc))
            } else if op & 0x0c == 0x04 {
                VarOrConst::Variable(m[yc])
            } else {
                VarOrConst::Const(m[yc] as i16)
            };
            let zoom = if op & 0x03 == 0x01 {
                VarOrConst::Variable(m[zc])
            } else if op & 0x03 == 0x02 {
                VarOrConst::Const(m[zc] as i16)
            } else {
                VarOrConst::Const(0x40)
            };
            let source = if op & 0x03 == 0x03 {
                PolygonSource::AltVideo
            } else {
                PolygonSource::Cinematic
            };
            Some(
                (
                    Instruction::Draw(
                        (PolygonResource {
                            buffer_offset: vstd::wrapping::u16_specs::wrapping_mul(offset, 2)
                                as usize,
                            source,
                        }),
                        x,
                        y,
                        zoom,
                    ),
                    zc + zlen,
                ),
            )
        }
    }
}

/// What instruction sits at an offset of a bytecode buffer, and the offset
/// just past it; `None` where the buffer ends early, the opcode is unknown,
/// or a conditional jump carries an unknown condition.
pub open spec fn spec_decode(m: Seq<u8>, a: int) -> Option<(Instruction, int)> {
    if a < 0 || a >= m.len() {
        None
    } else {
        let op = m[a];
        if op == 0x00 {
            if a + 4 <= m.len() {
                Some((Instruction::MovConst(m[a + 1], sd_i16(m, a + 2)), a + 4))
            } else {
                None
            }
        } else if op == 0x01 {
            if a + 3 <= m.len() {
                Some((Instruction::Mov(m[a + 1], m[a + 2]), a + 3))
            } else {
                None
            }
        } else if op == 0x02 {
            if a + 3 <= m.len() {
                Some((Instruction::Add(m[a + 1], m[a + 2]), a + 3))
            } else {
                None
            }
        } else if op == 0x03 {
            if a + 4 <= m.len() {
                Some((Instruction::AddConst(m[a + 1], sd_i16(m, a + 2)), a + 4))
            } else {
                None
            }
        } else if op == 0x04 {
            if a + 3 <= m.len() {
                Some((Instruction::Call(sd_u16(m, a + 1)), a + 3))
            } else {
                None
            }
        } else if op == 0x05 {
            Some((Instruction::Ret, a + 1))
        } else if op == 0x06 {
            Some((Instruction::TPause, a + 1))
        } else if op == 0x07 {
            if a + 3 <= m.len() {
                Some((Instruction::Jmp(sd_u16(m, a + 1)), a + 3))
            } else {
                None
            }
        } else if op == 0x08 {
            if a + 4 <= m.len() {
                Some((Instruction::SetVec(m[a + 1], sd_u16(m, a + 2)), a + 4))
            } else {
                None
            }
        } else if op == 0x09 {
            if a + 4 <= m.len() {
                Some((Instruction::Jnz(m[a + 1], sd_u16(m, a + 2)), a + 4))
            } else {
                None
            }
        } else if op == 0x0a {
            spec_decode_condjmp(m, a)
        } else if op == 0x0b {
            if a + 3 <= m.len() {
                Some((Instruction::SetPalette(sd_u16(m, a + 1)), a + 3))
            } else {
                None
            }
        } else if op == 0x0c {
            if a + 4 <= m.len() {
                Some((Instruction::TReset(m[a + 1], m[a + 2], m[a + 3]), a + 4))
            } else {
                None
            }
        } else if op == 0x0d {
            if a + 2 <= m.len() {
                Some((Instruction::SelectVideoPage(m[a + 1]), a + 2))
            } else {
                None
            }
        } else if op == 0x0e {
            if a + 3 <= m.len() {
                Some((Instruction::FillVideoPage(m[a + 1], m[a + 2]), a + 3))
            } else {
                None
            }
        } else if op == 0x0f {
            if a + 3 <= m.len() {
                Some((Instruction::CopyVideoPage(m[a + 1], m[a + 2]), a + 3))
            } else {
                None
            }
        } else if op == 0x10 {
            if a + 2 <= m.len() {
                Some((Instruction::Blit(m[a + 1]), a + 2))
            } else {
                None
            }
        } else if op == 0x11 {
            Some((Instruction::TKill, a + 1))
        } else if op == 0x12 {
            if a + 6 <= m.len() {
                Some(
                    (
                        Instruction::DrawString(sd_u16(m, a + 1), m[a + 3], m[a + 4], m[a + 5]),
                        a + 6,
                    ),
                )
            } else {
                None
            }
        } else if op == 0x13 {
            if a + 3 <= m.len() {
                Some((Instruction::Sub(m[a + 1], m[a + 2]), a + 3))
            } else {
                None
            }
        } else if op == 0x14 {
            if a + 4 <= m.len() {
                Some((Instruction::And(m[a + 1], sd_u16(m, a + 2)), a + 4))
            } else {
                None
            }
        } else if op == 0x15 {
            if a + 4 <= m.len() {
                Some((Instruction::Or(m[a + 1], sd_u16(m, a + 2)), a + 4))
            } else {
                None
            }
        } else if op == 0x16 {
            if a + 4 <= m.len() {
                Some((Instruction::Shl(m[a + 1], sd_u16(m, a + 2)), a + 4))
            } else {
                None
            }
        } else if op == 0x17 {
            if a + 4 <= m.len() {
                Some((Instruction::Shr(m[a + 1], sd_u16(m, a + 2)), a + 4))
            } else {
                None
            }
        } else if op == 0x18 {
            if a + 6 <= m.len() {
                Some(
                    (
                        Instruction::PlaySound(sd_u16(m, a + 1), m[a + 3], m[a + 4], m[a + 5]),
                        a + 6,
                    ),
                )
            } else {
                None
            }
        } else if op == 0x19 {
            if a + 3 <= m.len() {
                Some((Instruction::LoadRes(sd_u16(m, a + 1)), a + 3))
            } else {
                None
            }
        } else if op == 0x1a {
            if a + 6 <= m.len() {
                Some(
                    (
                        Instruction::PlayMusic(sd_u16(m, a + 1), sd_u16(m, a + 3), m[a + 5]),
                        a + 6,
                    ),
                )
            } else {
                None
            }
        } else if op & 0x80 != 0 {
            spec_decode_draw_abs(m, a)
        } else if op & 0x40 != 0 {
            spec_decode_draw_var(m, a)
        } else {
            None
        }
    }
}

impl Vm {
    /// Decode the instruction under the cursor and advance past it. The
    /// result matches `spec_decode` at the cursor's offset exactly.
    fn decode<'a>(pc: &mut ProgramCounter<'a>) -> (r: Result<Instruction, FatalError>)
        ensures
            final(pc).mem@ == old(pc).mem@,
            match spec_decode(old(pc).mem@, old(pc).address as int) {
                Some((inst, na)) => r == Ok::<Instruction, FatalError>(inst) && final(pc).address
                    == na,
                None => r is Err,
            },
    {
        let op = pc.read_u8()?;
        match op {
            0x00 => Ok(Instruction::MovConst(pc.read_u8()?, pc.read_i16()?)),
            0x01 => Ok(Instruction::Mov(pc.read_u8()?, pc.read_u8()?)),
            0x02 => Ok(Instruction::Add(pc.read_u8()?, pc.read_u8()?)),
            0x03 => Ok(Instruction::AddConst(pc.read_u8()?, pc.read_i16()?)),
            0x04 => Ok(Instruction::Call(pc.read_u16()?)),
            0x05 => Ok(Instruction::Ret),
            0x06 => Ok(Instruction::TPause),
            0x07 => Ok(Instruction::Jmp(pc.read_u16()?)),
            0x08 => Ok(Instruction::SetVec(pc.read_u8()?, pc.read_u16()?)),
            0x09 => Ok(Instruction::Jnz(pc.read_u8()?, pc.read_u16()?)),
            0x0a => {
                let sub = pc.read_u8()?;
                let variable = pc.read_u8()?;
                let operand = if sub & 0xc0 == 0x80 || sub & 0xc0 == 0xc0 {
                    VarOrConst::Variable(pc.read_u8()?)
                } else if sub & 0xc0 == 0x40 {
                    VarOrConst::Const(pc.read_i16()?)
                } else {
                    VarOrConst::Const(pc.read_u8()? as i16)
                };
                let condition = match sub & 0x7 {
                    0 => JmpCondition::Eq,
                    1 => JmpCondition::NotEq,
                    2 => JmpCondition::Greater,
                    3 => JmpCondition::GreaterEq,
                    4 => JmpCondition::Less,
                    5 => JmpCondition::LessEq,
                    _ => {
                        return Err(FatalError::InvalidOpcode(sub));
                    },
                };
                let destination = pc.read_u16()?;
                Ok(Instruction::CondJmp(condition, variable, operand, destination))
            },
            0x0b => Ok(Instruction::SetPalette(pc.read_u16()?)),
            0x0c => Ok(Instruction::TReset(pc.read_u8()?, pc.read_u8()?, pc.read_u8()?)),
            0x0d => Ok(Instruction::SelectVideoPage(pc.read_u8()?)),
            0x0e => Ok(Instruction::FillVideoPage(pc.read_u8()?, pc.read_u8()?)),
            0x0f => Ok(Instruction::CopyVideoPage(pc.read_u8()?, pc.read_u8()?)),
            0x10 => Ok(Instruction::Blit(pc.read_u8()?)),
            0x11 => Ok(Instruction::TKill),
            0x12 => Ok(
                Instruction::DrawString(pc.read_u16()?, pc.read_u8()?, pc.read_u8()?, pc.read_u8()?),
            ),
            0x13 => Ok(Instruction::Sub(pc.read_u8()?, pc.read_u8()?)),
            0x14 => Ok(Instruction::And(pc.read_u8()?, pc.read_u16()?)),
            0x15 => Ok(Instruction::Or(pc.read_u8()?, pc.read_u16()?)),
            0x16 => Ok(Instruction::Shl(pc.read_u8()?, pc.read_u16()?)),
            0x17 => Ok(Instruction::Shr(pc.read_u8()?, pc.read_u16()?)),
            0x18 => Ok(
                Instruction::PlaySound(pc.read_u16()?, pc.read_u8()?, pc.read_u8()?, pc.read_u8()?),
            ),
            0x19 => Ok(Instruction::LoadRes(pc.read_u16()?)),
            0x1a => Ok(Instruction::PlayMusic(pc.read_u16()?, pc.read_u16()?, pc.read_u8()?)),
            _ => {
                if op & 0x80 != 0 {
                    let low = pc.read_u8()?;
                    let offset = (op as u16) * 256 + (low as u16);
                    let mut x = pc.read_u8()? as i16;
                    let mut y = pc.read_u8()? as i16;
                    let h = y - 199;
                    if h > 0 {
                        y = 199;
                        x = x + h;
                    }
                    let polygon = PolygonResource {
                        buffer_offset: offset.wrapping_mul(2) as usize,
                        source: PolygonSource::Cinematic,
                    };
                    Ok(
                        Instruction::Draw(
                            polygon,
                            VarOrConst::Const(x),
                            VarOrConst::Const(y),
                            VarOrConst::Const(0x40),
                        ),
                    )
                } else if op & 0x40 != 0 {
                    let offset = pc.read_u16()?;
                    let x = if op & 0x30 == 0x00 {
                        VarOrConst::Const(pc.read_i16()?)
                    } else if op & 0x30 == 0x10 {
                        VarOrConst::Variable(pc.read_u8()?)
                    } else if op & 0x30 == 0x20 {
                        VarOrConst::Const(pc.read_u8()? as i16)
                    } else {
                        VarOrConst::Const(pc.read_u8()? as i16 + 0x100)
                    };
                    let y = if op & 0x0c == 0x00 {
                        VarOrConst::Const(pc.read_i16()?)
                    } else if op & 0x0c == 0x04 {
                        VarOrConst::Variable(pc.read_u8()?)
                    } else {
                        VarOrConst::Const(pc.read_u8()? as i16)
                    };
                    let zoom = if op & 0x03 == 0x01 {
                        VarOrConst::Variable(pc.read_u8()?)
                    } else if op & 0x03 == 0x02 {
                        VarOrConst::Const(pc.read_u8()? as i16)
                    } else {
                        VarOrConst::Const(0x40)
                    };
                    let source = if op & 0x03 == 0x03 {
                        PolygonSource::AltVideo
                    } else {
                        PolygonSource::Cinematic
                    };
                    let polygon = PolygonResource {
                        buffer_offset: offset.wrapping_mul(2) as usize,
                        source,
                    };
                    Ok(Instruction::Draw(polygon, x, y, zoom))
                } else {
                    Err(FatalError::InvalidOpcode(op))
                }
            },
        }
    }
}


/// The left/right steering value packed from the input edges.
pub open spec fn spec_left_right(input: InputState) -> i16 {
    if input.left {
        -1i16
    } else if input.right {
        1i16
    } else {
        0i16
    }
}

/// The up/down steering value packed from the input edges; up wins.
pub open spec fn spec_up_down(input: InputState) -> i16 {
    if input.up {
        -1i16
    } else if input.down {
        1i16
    } else {
        0i16
    }
}

/// The directional bit mask packed from the input edges.
pub open spec fn spec_pos_mask(input: InputState) -> i16 {
    ((if input.right {
        1int
    } else {
        0int
    }) + (if input.left {
        2int
    } else {
        0int
    }) + (if input.down {
        4int
    } else {
        0int
    }) + (if input.up {
        8int
    } else {
        0int
    })) as i16
}

/// The variable file after the per-frame input packing. The action flag is
/// set but never cleared here.
pub open spec fn spec_apply_input(vars: Seq<i16>, input: InputState) -> Seq<i16> {
    let v = vars.update(HERO_POS_UP_DOWN as int, spec_up_down(input)).update(
        HERO_POS_MASK as int,
        spec_pos_mask(input),
    );
    let v = if input.action {
        v.update(HERO_ACTION as int, 1i16)
    } else {
        v
    };
    v.update(HERO_POS_JUMP_DOWN as int, spec_up_down(input)).update(
        HERO_POS_LEFT_RIGHT as int,
        spec_left_right(input),
    ).update(
        HERO_ACTION_POS_MASK as int,
        (spec_pos_mask(input) + if input.action {
            0x80int
        } else {
            0int
        }) as i16,
    )
}

/// What the frame boundary does to one thread record: pauses commit, a
/// pending program counter commits (a kill request parks the thread), and
/// the request slot clears.
pub open spec fn spec_update_thread(td: ThreadData) -> ThreadData {
    if td.requested_pc != 0xffff {
        (ThreadData {
            pc: if td.requested_pc == 0xfffe {
                0xffff
            } else {
                td.requested_pc
            },
            requested_pc: 0xffff,
            paused: td.requested_pause,
            requested_pause: td.requested_pause,
        })
    } else {
        (ThreadData { paused: td.requested_pause, ..td })
    }
}

/// `b` holds everything `a` held, in order, possibly followed by more.
pub open spec fn cmds_extended(a: Seq<VideoCommand>, b: Seq<VideoCommand>) -> bool {
    b.len() >= a.len() && (forall|i: int| 0 <= i < a.len() ==> b[i] == a[i])
}



/// The frame-boundary commit of one thread record, in full: the pause
/// request takes effect, a pending program counter lands — a kill request
/// as idle — and the request slot clears. Nothing else moves a parked
/// thread between frames.
pub proof fn lemma_frame_boundary_commit(td: ThreadData)
    ensures
        spec_update_thread(td).paused == td.requested_pause,
        spec_update_thread(td).requested_pause == td.requested_pause,
        spec_update_thread(td).pc == (if td.requested_pc == 0xffff {
            td.pc
        } else if td.requested_pc == 0xfffe {
            0xffffu16
        } else {
            td.requested_pc
        }),
        spec_update_thread(td).requested_pc == 0xffff,
{
}

/// A call pushes the return address and redirects the current thread;
/// with the stack full it is fatal.
pub proof fn lemma_call_pushes(s: VmSt, dest: u16)
    ensures
        s.sp == 0xff ==> sp_exec(s, Instruction::Call(dest)) is None,
        s.sp != 0xff ==> (sp_exec(s, Instruction::Call(dest)) matches Some((s2, ir)) && ir
            == InstructionResult::Continue && s2.stack == s.stack.update(
            s.sp,
            s.threads[s.cur].pc,
        ) && s2.sp == s.sp + 1 && s2.threads == s.threads.update(
            s.cur,
            (ThreadData { pc: dest, ..s.threads[s.cur] }),
        ) && s2.vars == s.vars && s2.cmds == s.cmds),
{
}

/// A return pops the pushed address into the current thread's program
/// counter, leaving the stack contents alone; with the stack empty it is
/// fatal.
pub proof fn lemma_ret_pops(s: VmSt)
    ensures
        s.sp == 0 ==> sp_exec(s, Instruction::Ret) is None,
        s.sp != 0 ==> (sp_exec(s, Instruction::Ret) matches Some((s2, ir)) && ir
            == InstructionResult::Continue && s2.stack == s.stack && s2.sp == s.sp - 1
            && s2.threads == s.threads.update(
            s.cur,
            (ThreadData { pc: s.stack[s.sp - 1], ..s.threads[s.cur] }),
        ) && s2.vars == s.vars && s2.cmds == s.cmds),
{
}

/// A conditional jump redirects the current thread exactly when its
/// comparison holds, and touches no variable, stack slot or queue.
pub proof fn lemma_cond_jmp(s: VmSt, c: JmpCondition, v: u8, operand: VarOrConst, dest: u16)
    ensures
        sp_exec(s, Instruction::CondJmp(c, v, operand, dest)) matches Some((s2, ir)) && ir
            == InstructionResult::Continue && s2.threads == (if spec_cond(
            c,
            s.vars[v as int],
            resolve(s.vars, operand),
        ) {
            s.threads.update(s.cur, (ThreadData { pc: dest, ..s.threads[s.cur] }))
        } else {
            s.threads
        }) && s2.vars == s.vars && s2.stack == s.stack && s2.sp == s.sp && s2.cmds == s.cmds,
{
}

/// One scheduler step of the current thread: decode at its program
/// counter, park the counter past the instruction, then run it.
pub open spec fn sp_thread_step(mem: Seq<u8>, s: VmSt) -> Option<(VmSt, InstructionResult)> {
    match spec_decode(mem, s.threads[s.cur].pc as int) {
        None => None,
        Some((i, na)) => sp_exec(st_cur_pc(s, (na % 0x10000) as u16), i),
    }
}

/// The current thread's timeslice: steps until a yield or a pass to the
/// next thread. `None` on a fatal condition, including running the fuel
/// out without yielding.
pub open spec fn sp_thread_run(mem: Seq<u8>, s: VmSt, fuel: nat) -> Option<(VmSt, Option<Yield>)>
    decreases fuel,
{
    if fuel == 0 {
        None
    } else {
        match sp_thread_step(mem, s) {
            None => None,
            Some((s2, InstructionResult::Yield(y))) => Some((s2, Some(y))),
            Some((s2, InstructionResult::NextThread)) => Some((s2, None)),
            Some((s2, InstructionResult::Continue)) => sp_thread_run(mem, s2, (fuel - 1) as nat),
        }
    }
}


/// The frame's thread sweep from thread `t` upward: paused and idle
/// threads are skipped, every other thread gets a timeslice over a stack
/// reset — except the first one of a resumed frame, which continues on the
/// stack it yielded with. The sweep ends at the first yield, or completes.
pub open spec fn sp_threads_from(mem: Seq<u8>, s: VmSt, t: int, resume: bool) -> Option<
    (VmSt, Option<Yield>),
>
    decreases 64 - t,
{
    if t >= 64 {
        Some((s, None))
    } else {
        let s_cur = VmSt { cur: t, ..s };
        if s.threads[t].paused || s.threads[t].pc == 0xffff {
            sp_threads_from(mem, s_cur, t + 1, resume)
        } else {
            let s_entry = if resume {
                s_cur
            } else {
                VmSt { sp: 0, ..s_cur }
            };
            match sp_thread_run(mem, s_entry, TIMESLICE_LIMIT as nat) {
                None => None,
                Some((s2, Some(y))) => Some((s2, Some(y))),
                Some((s2, None)) => sp_threads_from(mem, s2, t + 1, false),
            }
        }
    }
}

/// A frame resumed mid-sweep: the input packed into the hero variables,
/// then the thread sweep from the current thread.
pub open spec fn sp_resume_frame(mem: Seq<u8>, input: InputState, s: VmSt, resume: bool) -> Option<
    (VmSt, Option<Yield>),
> {
    sp_threads_from(mem, (VmSt { vars: spec_apply_input(s.vars, input), ..s }), s.cur, resume)
}

/// One whole frame: at a frame boundary the pending thread requests
/// commit and the sweep restarts at thread 0; a resumed frame carries on
/// where it yielded. The result is the machine's full successor state and
/// the yield, if any; `None` is a fatal bytecode error.
pub open spec fn sp_frame(mem: Seq<u8>, input: InputState, s: VmSt, resume: bool) -> Option<
    (VmSt, Option<Yield>),
> {
    let s0 = if !resume {
        VmSt { threads: Seq::new(64, |t: int| spec_update_thread(s.threads[t])), cur: 0, ..s }
    } else {
        s
    };
    sp_resume_frame(mem, input, s0, resume)
}


/// At a frame boundary a kill request parks its thread: the committed
/// record is idle, with nothing left pending. This is the per-thread
/// commit that `sp_frame` applies at every boundary.
pub proof fn lemma_kill_request_parks(td: ThreadData)
    requires
        td.requested_pc == 0xfffe,
    ensures
        spec_update_thread(td).pc == 0xffff,
        spec_update_thread(td).requested_pc == 0xffff,
{
}

/// A sweep over threads that are all paused or idle runs nothing: it
/// completes, leaving the state untouched but for the current-thread
/// marker.
proof fn lemma_sweep_all_skipped(mem: Seq<u8>, s: VmSt, t: int, resume: bool)
    requires
        0 <= t <= 64,
        s.threads.len() == 64,
        forall|k: int|
            t <= k < 64 ==> ((#[trigger] s.threads[k]).paused || s.threads[k].pc == 0xffff),
    ensures
        sp_threads_from(mem, s, t, resume) == Some(
            (
                (if t < 64 {
                    (VmSt { cur: 63, ..s })
                } else {
                    s
                }),
                None::<Yield>,
            ),
        ),
    decreases 64 - t,
{
    if t < 64 {
        lemma_sweep_all_skipped(mem, (VmSt { cur: t, ..s }), t + 1, resume);
    }
}

/// A frame in which no thread comes out of the boundary commit runnable
/// completes at once: the boundary commit and the input packing are the
/// only mutations, and the sweep yields nothing.
pub proof fn lemma_idle_frame_completes(mem: Seq<u8>, input: InputState, s: VmSt)
    requires
        s.threads.len() == 64,
        forall|t: int|
            0 <= t < 64 ==> ((#[trigger] spec_update_thread(s.threads[t])).paused
                || spec_update_thread(s.threads[t]).pc == 0xffff),
    ensures
        ({
            let committed = Seq::new(64, |t: int| spec_update_thread(s.threads[t]));
            sp_frame(mem, input, s, false) == Some(
                (
                    (VmSt {
                        vars: spec_apply_input(s.vars, input),
                        threads: committed,
                        cur: 63,
                        ..s
                    }),
                    None::<Yield>,
                ),
            )
        }),
{
    let committed = Seq::new(64, |t: int| spec_update_thread(s.threads[t]));
    let s0 = VmSt { threads: committed, cur: 0, ..s };
    let s1 = VmSt { vars: spec_apply_input(s0.vars, input), ..s0 };
    lemma_sweep_all_skipped(mem, s1, 0, false);
}

impl Vm {
    /// Pack the frame's input edges into the hero variables.
    fn update_input(&mut self, input: InputState)
        requires
            old(self).wf(),
        ensures
            final(self).wf(),
            final(self).variables@ == spec_apply_input(old(self).variables@, input),
            eq_threads(*old(self), *final(self)),
            eq_stack(*old(self), *final(self)),
            eq_cmds(*old(self), *final(self)),
            final(self).current_thread == old(self).current_thread,
            final(self).resume_pending == old(self).resume_pending,
            final(self).bypass == old(self).bypass,
    {
        let mut left_right: i16 = 0;
        let mut up_down: i16 = 0;
        let mut input_mask: i16 = 0;

        if input.right {
            left_right = 1;
            input_mask = input_mask + 1;
        }
        if input.left {
            left_right = -1;
            input_mask = input_mask + 2;
        }
        if input.down {
            up_down = 1;
            input_mask = input_mask + 4;
        }

        self.set_var(HERO_POS_UP_DOWN, up_down);

        if input.up {
            up_down = -1;
            input_mask = input_mask + 8;
            self.set_var(HERO_POS_UP_DOWN, -1);
        }

        self.set_var(HERO_POS_MASK, input_mask);

        if input.action {
            input_mask = input_mask + 0x80;
            self.set_var(HERO_ACTION, 1);
        }

        self.set_var(HERO_POS_JUMP_DOWN, up_down);
        self.set_var(HERO_POS_LEFT_RIGHT, left_right);
        self.set_var(HERO_ACTION_POS_MASK, input_mask);
        proof {
            assert(self.variables@ =~= spec_apply_input(old(self).variables@, input));
        }
    }

    /// Commit every thread's pending pause and program-counter request;
    /// the frame boundary.
    fn update_threads(&mut self)
        requires
            old(self).wf(),
        ensures
            final(self).wf(),
            final(self).thread_data@ == Seq::new(
                64,
                |t: int| spec_update_thread(old(self).thread_data@[t]),
            ),
            eq_vars(*old(self), *final(self)),
            eq_stack(*old(self), *final(self)),
            eq_cmds(*old(self), *final(self)),
            final(self).current_thread == old(self).current_thread,
            final(self).resume_pending == old(self).resume_pending,
            final(self).bypass == old(self).bypass,
    {
        let mut thread: usize = 0;
        while thread < 64
            invariant
                self.wf(),
                thread <= 64,
                eq_vars(*old(self), *self),
                eq_stack(*old(self), *self),
                eq_cmds(*old(self), *self),
                self.current_thread == old(self).current_thread,
                self.resume_pending == old(self).resume_pending,
                self.bypass == old(self).bypass,
                forall|t: int|
                    0 <= t < 64 ==> self.thread_data@[t] == (if t < thread {
                        spec_update_thread(old(self).thread_data@[t])
                    } else {
                        old(self).thread_data@[t]
                    }),
            decreases 64 - thread,
        {
            let mut td = self.thread_data[thread];
            td.paused = td.requested_pause;
            if td.requested_pc != 0xffff {
                td.pc = if td.requested_pc == 0xfffe {
                    0xffff
                } else {
                    td.requested_pc
                };
                td.requested_pc = 0xffff;
            }
            self.thread_data[thread] = td;
            thread = thread + 1;
        }
        proof {
            assert(self.thread_data@ =~= Seq::new(
                64,
                |t: int| spec_update_thread(old(self).thread_data@[t]),
            ));
        }
    }

    /// Run the current thread until it yields, ends its timeslice, or trips
    /// a fatal bytecode error. Only the current thread's program counter
    /// moves; every other thread keeps its own.
    fn execute_thread(&mut self, mem: &[u8]) -> (r: Result<ThreadResult, FatalError>)
        requires
            old(self).wf(),
        ensures
            final(self).wf(),
            final(self).current_thread == old(self).current_thread,
            final(self).resume_pending == old(self).resume_pending,
            final(self).bypass == old(self).bypass,
            cmds_extended(old(self).video_commands@, final(self).video_commands@),
            forall|t: int|
                0 <= t < 64 && t != old(self).current_thread ==> final(self).thread_data@[t].pc
                    == old(self).thread_data@[t].pc,
            match sp_thread_run(mem@, vm_st(*old(self)), TIMESLICE_LIMIT as nat) {
                Some((s2, oy)) => vm_st(*final(self)) == s2 && (match oy {
                    Some(y) => r == Ok::<ThreadResult, FatalError>(ThreadResult::Yield(y)),
                    None => r == Ok::<ThreadResult, FatalError>(ThreadResult::Continue),
                }),
                None => r is Err,
            },
    {
        let mut steps: u32 = 0;
        while steps < TIMESLICE_LIMIT
            invariant
                self.wf(),
                steps <= TIMESLICE_LIMIT,
                self.current_thread == old(self).current_thread,
                self.resume_pending == old(self).resume_pending,
                self.bypass == old(self).bypass,
                cmds_extended(old(self).video_commands@, self.video_commands@),
                forall|t: int|
                    0 <= t < 64 && t != old(self).current_thread ==> self.thread_data@[t].pc == old(self).thread_data@[t].pc,
                sp_thread_run(mem@, vm_st(*old(self)), TIMESLICE_LIMIT as nat) == sp_thread_run(
                    mem@,
                    vm_st(*self),
                    (TIMESLICE_LIMIT - steps) as nat,
                ),
            decreases TIMESLICE_LIMIT - steps,
        {
            let cur = self.current_thread as usize;
            let mut pc = ProgramCounter { mem, address: self.thread_data[cur].pc as usize };
            let instruction = match Vm::decode(&mut pc) {
                Ok(i) => i,
                Err(e) => {
                    return Err(e);
                },
            };
            let mut td = self.thread_data[cur];
            td.pc = (pc.address % 0x10000) as u16;
            self.thread_data[cur] = td;

            match self.execute(instruction) {
                Ok(InstructionResult::Yield(y)) => {
                    return Ok(ThreadResult::Yield(y));
                },
                Ok(InstructionResult::NextThread) => {
                    return Ok(ThreadResult::Continue);
                },
                Ok(InstructionResult::Continue) => {},
                Err(e) => {
                    return Err(e);
                },
            }
            steps = steps + 1;
        }
        Err(FatalError::TimesliceExceeded)
    }

    /// Run the frame's remaining threads in ascending id order, starting at
    /// the current one.
    fn resume_frame(&mut self, mem: &[u8], input: InputState) -> (r: Result<
        FrameResult,
        FatalError,
    >)
        requires
            old(self).wf(),
        ensures
            final(self).wf(),
            final(self).bypass == old(self).bypass,
            cmds_extended(old(self).video_commands@, final(self).video_commands@),
            r matches Ok(FrameResult::Yield(_)) ==> final(self).resume_pending,
            (old(self).resume_pending == false && (r matches Ok(FrameResult::Complete))) ==> final(self).resume_pending == false,
            forall|t: int|
                0 <= t < 64 && old(self).thread_data@[t].pc == 0xffff ==> final(self).thread_data@[t].pc == 0xffff,
            match sp_resume_frame(mem@, input, vm_st(*old(self)), old(self).resume_pending) {
                Some((s2, oy)) => vm_st(*final(self)) == s2 && (match oy {
                    Some(y) => r == Ok::<FrameResult, FatalError>(FrameResult::Yield(y)),
                    None => r == Ok::<FrameResult, FatalError>(FrameResult::Complete),
                }),
                None => r is Err,
            },
    {
        self.update_input(input);
        let ghost target = sp_threads_from(
            mem@,
            vm_st(*self),
            self.current_thread as int,
            self.resume_pending,
        );
        proof {
            assert(target == sp_resume_frame(
                mem@,
                input,
                vm_st(*old(self)),
                old(self).resume_pending,
            ));
        }

        let mut thread: usize = self.current_thread as usize;
        while thread < 64
            invariant
                self.wf(),
                thread <= 64,
                self.bypass == old(self).bypass,
                self.resume_pending == old(self).resume_pending || self.resume_pending == false,
                cmds_extended(old(self).video_commands@, self.video_commands@),
                forall|t: int|
                    0 <= t < 64 && old(self).thread_data@[t].pc == 0xffff
                        ==> self.thread_data@[t].pc == 0xffff,
                target == sp_threads_from(
                    mem@,
                    vm_st(*self),
                    thread as int,
                    self.resume_pending,
                ),
                target == sp_resume_frame(
                    mem@,
                    input,
                    vm_st(*old(self)),
                    old(self).resume_pending,
                ),
            decreases 64 - thread,
        {
            self.current_thread = thread as u8;
            let td = self.thread_data[thread];

            if !td.paused && td.pc != 0xffff {
                if !self.resume_pending {
                    self.stack_ptr = 0;
                } else {
                    self.resume_pending = false;
                }
                match self.execute_thread(mem) {
                    Ok(ThreadResult::Yield(y)) => {
                        self.resume_pending = true;
                        return Ok(FrameResult::Yield(y));
                    },
                    Ok(ThreadResult::Continue) => {},
                    Err(e) => {
                        return Err(e);
                    },
                }
            }
            thread = thread + 1;
        }

        Ok(FrameResult::Complete)
    }

    /// Run one frame: at a frame boundary, commit the pending thread
    /// requests and restart from thread 0; on a resumed frame, carry on
    /// from the thread that yielded. A kill request pending at a frame
    /// boundary parks its thread for the whole frame. The whole run is
    /// pinned by `sp_frame`: the machine's successor state and the yield,
    /// if any, are a function of the bytecode, the input and the state, so
    /// equal states driven with equal inputs come out equal.
    pub fn execute_frame(&mut self, mem: &[u8], input: InputState) -> (r: Result<
        FrameResult,
        FatalError,
    >)
        requires
            old(self).wf(),
        ensures
            final(self).wf(),
            final(self).bypass == old(self).bypass,
            cmds_extended(old(self).video_commands@, final(self).video_commands@),
            r matches Ok(FrameResult::Yield(_)) ==> final(self).resume_pending,
            (old(self).resume_pending == false && (r matches Ok(FrameResult::Complete))) ==> final(self).resume_pending == false,
            old(self).resume_pending == false ==> (forall|t: int|
                0 <= t < 64 && old(self).thread_data@[t].requested_pc == 0xfffe ==> final(self).thread_data@[t].pc == 0xffff),
            match sp_frame(mem@, input, vm_st(*old(self)), old(self).resume_pending) {
                Some((s2, oy)) => vm_st(*final(self)) == s2 && (match oy {
                    Some(y) => r == Ok::<FrameResult, FatalError>(FrameResult::Yield(y)),
                    None => r == Ok::<FrameResult, FatalError>(FrameResult::Complete),
                }),
                None => r is Err,
            },
    {
        if !self.resume_pending {
            self.update_threads();
            self.current_thread = 0;
        }
        self.resume_frame(mem, input)
    }
}

} // verus!
