//! The executor: drives the virtual machine frame by frame, routes its
//! video commands through the sequencer to the rasterizer, and serves its
//! resource requests from the catalog.

use vstd::prelude::*;

use crate::error::{Error, FatalError};
use crate::gfx::Gfx;
use crate::input::{Input, InputState};
use crate::resources::{
    sp_catalog_unchanged, sp_load_route, sp_prepare_outcome, GamePart, Io, Resources,
};
use crate::video::{
    sp_video_run, sp_video_unchanged, video_st, Page, RasterCommand, Video, VideoCommand,
};
use crate::vm::{spec_init_threads, spec_new_vars, sp_frame, vm_st, FrameResult, Vm, VmSt, Yield};

verus! {

/// How many frames one call of `run` may drive before handing control
/// back without a sleep budget; the caller simply calls `run` again.
pub const RUN_FRAME_LIMIT: u32 = 0x10000;

/// The engine assembled: the machine, the sequencer, the catalog, and the
/// host's rasterizer and input source.
pub struct Executor<I: Io, G: Gfx, In: Input> {
    pub vm: Vm,
    pub video: Video,
    pub resources: Resources<I>,
    pub gfx: G,
    pub input: In,
    pub frame: u64,
    /// How many frames this executor has driven, kept as ghost
    /// bookkeeping: every successful `run_frame` advances it by one, so a
    /// zero sleep budget out of `run` provably means a whole budget of
    /// frames ran.
    pub frames_driven: Ghost<nat>,
}

impl<I: Io, G: Gfx, In: Input> Executor<I, G, In> {
    pub open spec fn wf(self) -> bool {
        &&& self.vm.wf()
        &&& self.video.wf()
        &&& self.resources.wf()
    }

    /// Assemble the engine: read and parse the catalog index, then make
    /// the opening part resident. The machine and the sequencer start in
    /// their initial states. With the copy-protection bypass the game
    /// opens at the second part, past the protection screen.
    pub fn new(io: I, gfx: G, input: In, bypass: bool) -> (r: Result<Executor<I, G, In>, Error>)
        ensures
            r matches Ok(e) ==> e.wf() && e.frame == 0 && e.vm.bypass == bypass
                && e.resources.loaded_part == Some(
                if bypass {
                    GamePart::Two
                } else {
                    GamePart::One
                },
            ) && e.resources.requested_part is None && e.vm.variables@ == spec_new_vars(bypass)
                && e.vm.thread_data@ == spec_init_threads() && e.vm.current_thread == 0
                && e.vm.stack_ptr == 0 && e.vm.resume_pending == false && e.vm.video_commands@
                == Seq::<VideoCommand>::empty() && e.video.requested_palette is None
                && e.video.current_page == Page::One && e.video.working_page_a == Page::One
                && e.video.working_page_b == Page::Two && e.video.raster@ == Seq::<
                RasterCommand,
            >::empty() && e.frames_driven@ == 0,
    {
        let video = Video::new();
        let vm = Vm::new(bypass);
        let mut resources = match Resources::load(io) {
            Ok(res) => res,
            Err(e) => {
                return Err(e);
            },
        };

        if bypass {
            resources.prepare_part(GamePart::Two);
        } else {
            resources.prepare_part(GamePart::One);
        }

        Ok(Executor { vm, video, resources, gfx, input, frame: 0, frames_driven: Ghost(0nat) })
    }

    /// Drive one frame and dispatch its outcome: some host input took the
    /// machine through one whole frame of `sp_frame`, and the yield was
    /// routed. `Ok(Some(ms))` is a blit with a sleep budget: the frame's
    /// commands ran through the sequencer in order, the raster went to the
    /// rasterizer, and both queues are empty. `Ok(None)` is a zero-budget
    /// blit (handled the same), a resource request routed to the catalog,
    /// or a completed frame: the counter moves and a latched part request
    /// is served, the machine reinitialized. Missing bytecode for the
    /// current part is the library's own error and changes nothing.
    #[verifier::rlimit(80)]
    fn run_frame(&mut self) -> (r: Result<Option<u64>, FatalError>)
        requires
            old(self).wf(),
        ensures
            final(self).wf(),
            final(self).vm.bypass == old(self).vm.bypass,
            r is Ok ==> final(self).frames_driven@ == old(self).frames_driven@ + 1,
            r is Err ==> final(self).frames_driven@ == old(self).frames_driven@,
            old(self).resources.spec_bytecode() is None ==> r == Err::<Option<u64>, FatalError>(
                FatalError::MissingResource,
            ) && final(self).frame == old(self).frame && vm_st(final(self).vm) == vm_st(
                old(self).vm,
            ) && sp_catalog_unchanged(old(self).resources, final(self).resources)
                && sp_video_unchanged(old(self).video, final(self).video),
            r matches Ok(Some(ms)) ==> ms > 0 && final(self).vm.resume_pending && final(self).vm.video_commands@ == Seq::<VideoCommand>::empty() && final(self).video.raster@
                == Seq::<RasterCommand>::empty() && final(self).frame == old(self).frame
                && sp_catalog_unchanged(old(self).resources, final(self).resources),
            r matches Ok(Some(ms)) ==> (old(self).resources.spec_bytecode() matches Some(bc) && (
            exists|inp: InputState|
                (match #[trigger] sp_frame(
                    bc,
                    inp,
                    vm_st(old(self).vm),
                    old(self).vm.resume_pending,
                ) {
                    Some((s2, oy)) => oy == Some(Yield::Blit(ms)) && vm_st(final(self).vm) == (
                    VmSt { cmds: Seq::<VideoCommand>::empty(), ..s2 }) && sp_video_run(
                        video_st(old(self).video),
                        s2.cmds,
                        old(self).resources.spec_palette(),
                    ) == Some(video_st(final(self).video)),
                    None => false,
                }))),
            r matches Ok(None) ==> (old(self).resources.spec_bytecode() matches Some(bc) && (
            exists|inp: InputState|
                (match #[trigger] sp_frame(
                    bc,
                    inp,
                    vm_st(old(self).vm),
                    old(self).vm.resume_pending,
                ) {
                    Some((s2, oy)) => (match oy {
                        Some(Yield::Blit(ms)) => ms == 0 && vm_st(final(self).vm) == (VmSt {
                            cmds: Seq::<VideoCommand>::empty(),
                            ..s2
                        }) && sp_video_run(
                            video_st(old(self).video),
                            s2.cmds,
                            old(self).resources.spec_palette(),
                        ) == Some(video_st(final(self).video)) && final(self).video.raster@
                            == Seq::<RasterCommand>::empty() && final(self).frame == old(self).frame && sp_catalog_unchanged(old(self).resources, final(self).resources),
                        Some(Yield::ReqResource(id)) => vm_st(final(self).vm) == s2
                            && sp_load_route(old(self).resources, final(self).resources, id)
                            && final(self).frame == old(self).frame && sp_video_unchanged(
                            old(self).video,
                            final(self).video,
                        ),
                        None => final(self).frame == vstd::wrapping::u64_specs::wrapping_add(
                            old(self).frame,
                            1,
                        ) && sp_video_unchanged(old(self).video, final(self).video) && (
                        match old(self).resources.requested_part {
                            Some(p) => sp_prepare_outcome(
                                (Resources {
                                    requested_part: None::<GamePart>,
                                    ..old(self).resources
                                }),
                                final(self).resources,
                                p,
                            ) && vm_st(final(self).vm) == (VmSt {
                                vars: s2.vars.update(0xe4, 0x14i16),
                                threads: spec_init_threads(),
                                cur: 0,
                                ..s2
                            }) && final(self).vm.resume_pending == false,
                            None => sp_catalog_unchanged(old(self).resources, final(self).resources)
                                && vm_st(final(self).vm) == s2,
                        }),
                    }),
                    None => false,
                }))),
    {
        let input = self.input.get_input();
        let res = {
            let mem = match self.resources.bytecode() {
                Some(m) => m,
                None => {
                    return Err(FatalError::MissingResource);
                },
            };
            self.vm.execute_frame(mem, input)
        };
        let ghost bc = old(self).resources.spec_bytecode()->Some_0;
        let ghost fr = sp_frame(bc, input, vm_st(old(self).vm), old(self).vm.resume_pending);

        match res {
            Ok(FrameResult::Yield(Yield::Blit(ms))) => {
                let ghost s2 = fr->Some_0.0;
                let cmds = self.vm.video_commands();
                let ghost vm_snap = vm_st(self.vm);
                let ghost v0 = video_st(self.video);
                let ghost pal = old(self).resources.spec_palette();
                proof {
                    assert(cmds@ == s2.cmds);
                    assert(vm_snap == (VmSt { cmds: Seq::<VideoCommand>::empty(), ..s2 }));
                    assert(v0 == video_st(old(self).video));
                }
                proof {
                    assert(cmds@.skip(0) =~= cmds@);
                }
                let mut i: usize = 0;
                while i < cmds.len()
                    invariant
                        i <= cmds@.len(),
                        self.wf(),
                        self.vm.bypass == old(self).vm.bypass,
                        self.vm.resume_pending,
                        !(old(self).resources.spec_bytecode() is None),
                        self.vm.video_commands@ == Seq::<VideoCommand>::empty(),
                        self.frame == old(self).frame,
                        vm_st(self.vm) == vm_snap,
                        self.frames_driven == old(self).frames_driven,
                        sp_catalog_unchanged(old(self).resources, self.resources),
                        self.resources.spec_palette() == pal,
                        sp_video_run(v0, cmds@, pal) == sp_video_run(
                            video_st(self.video),
                            cmds@.skip(i as int),
                            pal,
                        ),
                    decreases cmds@.len() - i,
                {
                    proof {
                        assert(cmds@.skip(i as int)[0] == cmds@[i as int]);
                        assert(cmds@.skip(i as int).skip(1) =~= cmds@.skip(i as int + 1));
                    }
                    match self.video.push_command(cmds[i].clone(), &self.resources) {
                        Ok(()) => {},
                        Err(e) => {
                            return Err(e);
                        },
                    }
                    i = i + 1;
                }
                proof {
                    assert(cmds@.skip(cmds@.len() as int) =~= Seq::<VideoCommand>::empty());
                    assert(sp_video_run(v0, cmds@, pal) == Some(video_st(self.video)));
                }
                self.forward_raster();
                proof {
                    let pre_vm = vm_st(old(self).vm);
                    let pre_rp = old(self).vm.resume_pending;
                    if ms > 0 {
                        assert((match sp_frame(bc, input, pre_vm, pre_rp) {
                            Some((s2x, oy)) => oy == Some(Yield::Blit(ms as u64)) && vm_st(
                                self.vm,
                            ) == (VmSt { cmds: Seq::<VideoCommand>::empty(), ..s2x })
                                && sp_video_run(
                                video_st(old(self).video),
                                s2x.cmds,
                                old(self).resources.spec_palette(),
                            ) == Some(video_st(self.video)),
                            None => false,
                        }));
                    } else {
                        assert((match sp_frame(bc, input, pre_vm, pre_rp) {
                            Some((s2x, oy)) => (match oy {
                                Some(Yield::Blit(msx)) => msx == 0 && vm_st(self.vm) == (VmSt {
                                    cmds: Seq::<VideoCommand>::empty(),
                                    ..s2x
                                }) && sp_video_run(
                                    video_st(old(self).video),
                                    s2x.cmds,
                                    old(self).resources.spec_palette(),
                                ) == Some(video_st(self.video)) && self.video.raster@ == Seq::<
                                    RasterCommand,
                                >::empty() && self.frame == old(self).frame
                                    && sp_catalog_unchanged(old(self).resources, self.resources),
                                Some(Yield::ReqResource(id)) => false,
                                None => false,
                            }),
                            None => false,
                        }));
                    }
                }
                self.frames_driven = Ghost(self.frames_driven@ + 1);
                if ms > 0 {
                    Ok(Some(ms))
                } else {
                    Ok(None)
                }
            },
            Ok(FrameResult::Yield(Yield::ReqResource(resource_id))) => {
                let ghost s2 = fr->Some_0.0;
                self.resources.load_part_or_entry(resource_id);
                proof {
                    assert((match sp_frame(
                        bc,
                        input,
                        vm_st(old(self).vm),
                        old(self).vm.resume_pending,
                    ) {
                        Some((s2x, oy)) => (match oy {
                            Some(Yield::Blit(msx)) => false,
                            Some(Yield::ReqResource(id)) => vm_st(self.vm) == s2x && sp_load_route(
                                old(self).resources,
                                self.resources,
                                id,
                            ) && self.frame == old(self).frame && sp_video_unchanged(
                                old(self).video,
                                self.video,
                            ),
                            None => false,
                        }),
                        None => false,
                    }));
                }
                self.frames_driven = Ghost(self.frames_driven@ + 1);
                Ok(None)
            },
            Ok(FrameResult::Complete) => {
                let ghost s2 = fr->Some_0.0;
                self.frame = self.frame.wrapping_add(1);
                match self.resources.requested_part() {
                    Some(part) => {
                        self.resources.prepare_part(part);
                        self.vm.init_part();
                    },
                    None => {},
                }
                proof {
                    assert((match sp_frame(
                        bc,
                        input,
                        vm_st(old(self).vm),
                        old(self).vm.resume_pending,
                    ) {
                        Some((s2x, oy)) => (match oy {
                            Some(y) => false,
                            None => self.frame == vstd::wrapping::u64_specs::wrapping_add(
                                old(self).frame,
                                1,
                            ) && sp_video_unchanged(old(self).video, self.video) && (
                            match old(self).resources.requested_part {
                                Some(p) => sp_prepare_outcome(
                                    (Resources {
                                        requested_part: None::<GamePart>,
                                        ..old(self).resources
                                    }),
                                    self.resources,
                                    p,
                                ) && vm_st(self.vm) == (VmSt {
                                    vars: s2x.vars.update(0xe4, 0x14i16),
                                    threads: spec_init_threads(),
                                    cur: 0,
                                    ..s2x
                                }) && self.vm.resume_pending == false,
                                None => sp_catalog_unchanged(old(self).resources, self.resources)
                                    && vm_st(self.vm) == s2x,
                            }),
                        }),
                        None => false,
                    }));
                }
                self.frames_driven = Ghost(self.frames_driven@ + 1);
                Ok(None)
            },
            Err(e) => Err(e),
        }
    }

    /// Drive frames until a blit asks for a pacing sleep, and return that
    /// budget in milliseconds: the current machine state is then the
    /// successor of a frame that yielded exactly that blit, with its
    /// commands sequenced and both queues drained; the host sleeps and
    /// calls `run` again. A zero return means the frame budget of one
    /// call ran out first, every driven frame having gone through
    /// `run_frame`. Part changes requested by the bytecode happen between
    /// frames. A fatal bytecode error aborts the run, and bytecode
    /// missing for the current part is reported as such at once.
    pub fn run(&mut self) -> (r: Result<u64, FatalError>)
        requires
            old(self).wf(),
        ensures
            final(self).wf(),
            final(self).vm.bypass == old(self).vm.bypass,
            old(self).resources.spec_bytecode() is None ==> r == Err::<u64, FatalError>(
                FatalError::MissingResource,
            ) && final(self).frame == old(self).frame,
            (r matches Ok(ms) && ms > 0) ==> final(self).vm.resume_pending && final(self).vm.video_commands@ == Seq::<VideoCommand>::empty() && final(self).video.raster@
                == Seq::<RasterCommand>::empty(),
            r matches Ok(ms) && ms > 0 ==> final(self).frames_driven@ > old(self).frames_driven@,
            r == Ok::<u64, FatalError>(0) ==> final(self).frames_driven@ == old(
                self,
            ).frames_driven@ + RUN_FRAME_LIMIT,
            (match r {
                Ok(ms) => ms > 0 ==> (exists|pre: VmSt, inp: InputState, bc: Seq<u8>, rp: bool|
                    (match #[trigger] sp_frame(bc, inp, pre, rp) {
                        Some((s2, oy)) => oy == Some(Yield::Blit(ms)) && vm_st(final(self).vm)
                            == (VmSt { cmds: Seq::<VideoCommand>::empty(), ..s2 }),
                        None => false,
                    })),
                Err(_) => true,
            }),
    {
        let ghost pre_vm0 = vm_st(self.vm);
        let ghost pre_rp0 = self.vm.resume_pending;
        let ghost pre_bc0 = self.resources.spec_bytecode();
        let ghost pre_v00 = video_st(self.video);
        let ghost pre_pal0 = self.resources.spec_palette();
        match self.run_frame() {
            Ok(Some(ms)) => {
                proof {
                    let bc0 = pre_bc0->Some_0;
                    let inp0 = choose|inp: InputState|
                        (match #[trigger] sp_frame(bc0, inp, pre_vm0, pre_rp0) {
                            Some((s2, oy)) => oy == Some(Yield::Blit(ms)) && vm_st(self.vm) == (
                            VmSt { cmds: Seq::<VideoCommand>::empty(), ..s2 }) && sp_video_run(
                                pre_v00,
                                s2.cmds,
                                pre_pal0,
                            ) == Some(video_st(self.video)),
                            None => false,
                        });
                    assert((match sp_frame(bc0, inp0, pre_vm0, pre_rp0) {
                        Some((s2, oy)) => oy == Some(Yield::Blit(ms)) && vm_st(self.vm) == (VmSt {
                            cmds: Seq::<VideoCommand>::empty(),
                            ..s2
                        }),
                        None => false,
                    }));
                }
                return Ok(ms);
            },
            Ok(None) => {},
            Err(e) => {
                return Err(e);
            },
        }

        let mut frames: u32 = 1;
        while frames < RUN_FRAME_LIMIT
            invariant
                self.wf(),
                frames <= RUN_FRAME_LIMIT,
                self.vm.bypass == old(self).vm.bypass,
                !(old(self).resources.spec_bytecode() is None),
                self.frames_driven@ == old(self).frames_driven@ + frames,
            decreases RUN_FRAME_LIMIT - frames,
        {
            let ghost pre_vm = vm_st(self.vm);
            let ghost pre_rp = self.vm.resume_pending;
            let ghost pre_bc = self.resources.spec_bytecode();
            let ghost pre_v0 = video_st(self.video);
            let ghost pre_pal = self.resources.spec_palette();
            match self.run_frame() {
                Ok(Some(ms)) => {
                    proof {
                    let bc0 = pre_bc->Some_0;
                    let inp0 = choose|inp: InputState|
                        (match #[trigger] sp_frame(bc0, inp, pre_vm, pre_rp) {
                            Some((s2, oy)) => oy == Some(Yield::Blit(ms)) && vm_st(self.vm) == (
                            VmSt { cmds: Seq::<VideoCommand>::empty(), ..s2 }) && sp_video_run(
                                pre_v0,
                                s2.cmds,
                                pre_pal,
                            ) == Some(video_st(self.video)),
                            None => false,
                        });
                    assert((match sp_frame(bc0, inp0, pre_vm, pre_rp) {
                        Some((s2, oy)) => oy == Some(Yield::Blit(ms)) && vm_st(self.vm) == (VmSt {
                            cmds: Seq::<VideoCommand>::empty(),
                            ..s2
                        }),
                        None => false,
                    }));
                }
                    return Ok(ms);
                },
                Ok(None) => {},
                Err(e) => {
                    return Err(e);
                },
            }
            frames = frames + 1;
        }
        Ok(0)
    }

    /// Hand the sequencer's raster commands to the rasterizer, in order.
    fn forward_raster(&mut self)
        requires
            old(self).wf(),
        ensures
            final(self).wf(),
            final(self).video.raster@ == Seq::<RasterCommand>::empty(),
            final(self).vm == old(self).vm,
            sp_catalog_unchanged(old(self).resources, final(self).resources),
            final(self).frame == old(self).frame,
            final(self).frames_driven == old(self).frames_driven,
            video_st(final(self).video) == video_st(old(self).video),
    {
        let raster = self.video.take_raster_commands();
        let mut i: usize = 0;
        let n = raster.len();
        let mut raster = raster;
        while i < n
            invariant
                self.wf(),
                n == raster@.len(),
                i <= n,
                self.video.raster@ == Seq::<RasterCommand>::empty(),
                self.vm == old(self).vm,
                sp_catalog_unchanged(old(self).resources, self.resources),
                self.frame == old(self).frame,
                self.frames_driven == old(self).frames_driven,
                video_st(self.video) == video_st(old(self).video),
            decreases n - i,
        {
            match raster[i].clone() {
                RasterCommand::Blit(page) => self.gfx.blit(page),
                RasterCommand::Fill(page, color) => self.gfx.fill_page(page, color),
                RasterCommand::Copy(src, dest, scroll) => self.gfx.copy_page(src, dest, scroll),
                RasterCommand::Select(page) => self.gfx.select_page(page),
                RasterCommand::DrawString(id, color, x, y) => self.gfx.draw_string(id, color, x, y),
                RasterCommand::DrawPolygon(poly) => self.gfx.draw_polygon(poly),
                RasterCommand::SetPalette(palette) => self.gfx.set_palette(palette),
            }
            i = i + 1;
        }
    }
}

} // verus!
