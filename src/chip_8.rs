//! A whole machine: interpreter state, memory, screen buffer and the scheduler
//! that paces them, driven one host tick at a time.
use vstd::prelude::*;

use crate::memory::{initial_memory, write_range, Memory, MEMORY_SIZE, PROGRAM_START};
use crate::rom::Rom;
use crate::scheduler::{advance_spec, fresh, Scheduler, Tick};
use crate::state::{
    can_step, fault_of, initial_state, step_memory, step_screen, step_spec, tick_down, Fault,
    State, StateView,
};

verus! {

/// Why a program cannot be loaded.
#[derive(Debug, Clone, Copy, PartialEq, Eq, Structural)]
pub enum LoadError {
    /// The program does not fit between the program start and the end of memory.
    RomTooLarge,
}

/// `s` after one timer tick: both timers one less, but never below zero.
pub open spec fn timers_ticked(s: StateView) -> StateView {
    StateView { delay_timer: tick_down(s.delay_timer), sound_timer: tick_down(s.sound_timer), ..s }
}

/// What `delta` more time owes on the scheduler `s`.
pub open spec fn owed(s: Scheduler, delta: u64) -> Tick {
    advance_spec(s, delta).1
}

/// `s` after the timer tick that `t` owes, if it owes one.
pub open spec fn timed_state(s: StateView, t: Tick) -> StateView {
    if t.timer {
        timers_ticked(s)
    } else {
        s
    }
}

/// A screen buffer of `len` pixels, all off.
pub open spec fn blank(len: nat) -> Seq<u8> {
    Seq::new(len, |k: int| 0u8)
}

/// An interpreter together with everything it runs on.
pub struct Chip8 {
    /// The interpreter state.
    pub state: State,
    /// The address space.
    pub memory: Memory,
    /// One byte per pixel, row by row; 1 is on.
    pub screen: Vec<u8>,
    /// Paces the CPU and the timers.
    pub scheduler: Scheduler,
}

impl Chip8 {
    /// The memory holds the whole address space and the scheduler is consistent.
    pub open spec fn wf(&self) -> bool {
        self.memory.wf() && self.scheduler.wf()
    }

    /// A machine with a blank `width` by `height` screen, memory holding only the
    /// font, and a scheduler with the given periods.
    pub fn new(width: u32, height: u32, cpu_period: u64, timer_period: u64) -> (r: Chip8)
        requires
            width * height <= usize::MAX,
            cpu_period > 0,
            timer_period > 0,
        ensures
            r.state@ == initial_state(width, height),
            r.memory@ == initial_memory(),
            r.screen@ == blank((width * height) as nat),
            r.scheduler == fresh(cpu_period, timer_period),
            r.wf(),
    {
        let state = State::new(width, height);
        let screen = state.create_buffer();
        Chip8 {
            state,
            memory: Memory::new(),
            screen,
            scheduler: Scheduler::new(cpu_period, timer_period),
        }
    }

    /// Loads `rom` at the program start of a freshly reset memory and restarts
    /// the interpreter and the screen. A program that does not fit is refused
    /// and nothing changes.
    pub fn load_rom(&mut self, rom: Rom) -> (r: Result<(), LoadError>)
        requires
            old(self).wf(),
        ensures
            r is Ok <==> PROGRAM_START + rom@.len() <= MEMORY_SIZE,
            r is Ok ==> final(self).memory@ == write_range(
                initial_memory(),
                PROGRAM_START as int,
                rom@,
            ),
            r is Ok ==> final(self).state@ == initial_state(old(self).state.width, old(self).state.height),
            r is Ok ==> final(self).screen@ == blank(old(self).screen@.len()),
            r is Ok ==> final(self).scheduler == old(self).scheduler,
            r is Err ==> *final(self) == *old(self),
            final(self).wf(),
    {
        if rom.len() > MEMORY_SIZE - PROGRAM_START {
            return Err(LoadError::RomTooLarge);
        }
        self.memory.reset();
        self.memory.set_range(PROGRAM_START, rom.read_all());
        self.state = State::new(self.state.width, self.state.height);
        clear_buffer(&mut self.screen);
        Ok(())
    }

    /// Lets `delta` of wall-clock time pass with `keycode` pressed, if any: the
    /// timers count down if a timer tick is owed, then the interpreter steps if a
    /// CPU step is owed. A step that cannot run is reported and not taken.
    pub fn tick(&mut self, delta: u64, keycode: Option<u8>) -> (r: Result<Tick, Fault>)
        requires
            old(self).wf(),
        ensures
            final(self).wf(),
            final(self).scheduler == advance_spec(old(self).scheduler, delta).0,
            r is Err <==> (owed(old(self).scheduler, delta).cpu && !can_step(
                timed_state(old(self).state@, owed(old(self).scheduler, delta)),
                old(self).memory@,
                old(self).screen@.len() as int,
            )),
            r matches Err(f) ==> f == fault_of(
                timed_state(old(self).state@, owed(old(self).scheduler, delta)),
                old(self).memory@,
                old(self).screen@.len() as int,
            ),
            r matches Ok(u) ==> u == owed(old(self).scheduler, delta),
            (r is Err || !owed(old(self).scheduler, delta).cpu) ==> final(self).state@ == timed_state(
                old(self).state@,
                owed(old(self).scheduler, delta),
            ) && final(self).memory@ == old(self).memory@ && final(self).screen@ == old(
                self,
            ).screen@,
            (r is Ok && owed(old(self).scheduler, delta).cpu) ==> (exists|rnd: u8|
                final(self).state@ == #[trigger] step_spec(
                    timed_state(old(self).state@, owed(old(self).scheduler, delta)),
                    old(self).memory@,
                    keycode,
                    rnd,
                    old(self).screen@,
                )),
            (r is Ok && owed(old(self).scheduler, delta).cpu) ==> final(self).memory@ == step_memory(
                timed_state(old(self).state@, owed(old(self).scheduler, delta)),
                old(self).memory@,
            ) && final(self).screen@ == step_screen(
                timed_state(old(self).state@, owed(old(self).scheduler, delta)),
                old(self).memory@,
                old(self).screen@,
            ),
    {
        let ghost old_state = self.state@;
        let ghost mem = self.memory@;
        let ghost scr = self.screen@;
        let t = self.scheduler.advance(delta);
        if t.timer {
            let delay = crate::state::delay_timer(&self.state);
            let sound = crate::state::sound_timer(&self.state);
            self.state = State { delay_timer: delay, sound_timer: sound, ..self.state };
        }
        let ghost timed = self.state@;
        assert(timed == timed_state(old_state, t));
        if t.cpu {
            match self.state.fault(&self.memory, self.screen.len()) {
                Some(f) => {
                    return Err(f);
                },
                None => {
                    self.state = self.state.step(&mut self.memory, keycode, &mut self.screen);
                    proof {
                        let rnd = choose|rnd: u8|
                            self.state@ == #[trigger] step_spec(timed, mem, keycode, rnd, scr);
                        assert(self.state@ == step_spec(timed, mem, keycode, rnd, scr));
                    }
                },
            }
        }
        Ok(t)
    }

    /// Settles the screen flags after a tick: the screen buffer is blanked if a
    /// clear is owed, and the result says whether the screen must be redrawn.
    /// Both flags are reset.
    pub fn present(&mut self) -> (r: bool)
        requires
            old(self).wf(),
        ensures
            r == (old(self).state.clear_flag || old(self).state.draw_flag),
            final(self).screen@ == if old(self).state.clear_flag {
                blank(old(self).screen@.len())
            } else {
                old(self).screen@
            },
            final(self).state@ == (StateView {
                clear_flag: false,
                draw_flag: false,
                ..old(self).state@
            }),
            final(self).memory@ == old(self).memory@,
            final(self).scheduler == old(self).scheduler,
            final(self).wf(),
    {
        let redraw = self.state.clear_flag || self.state.draw_flag;
        if self.state.clear_flag {
            clear_buffer(&mut self.screen);
        }
        self.state = State { clear_flag: false, draw_flag: false, ..self.state };
        redraw
    }
}

/// Turns every pixel of `screen` off.
fn clear_buffer(screen: &mut Vec<u8>)
    ensures
        final(screen)@ == blank(old(screen)@.len()),
{
    let n = screen.len();
    let mut k: usize = 0;
    while k < n
        invariant
            n == screen@.len(),
            n == old(screen)@.len(),
            k <= n,
            forall|j: int| 0 <= j < k ==> #[trigger] screen@[j] == 0u8,
        decreases n - k,
    {
        screen.set(k, 0);
        k = k + 1;
    }
    assert(screen@ =~= blank(n as nat));
}

} // verus!
